//! Startup assembly: the scanned content files become the asset store, the
//! template set and the two handlers, all before the first request is
//! served and all immutable afterwards.
//!
//! The filesystem scan itself happens outside this crate; what arrives here
//! is the plain list of `(file name, bytes)` entries it produced.

use vstd::prelude::*;
use crate::assets::{file_views, store_of, StaticAssetStore};
use crate::err_page::ErrHandler;
use crate::init::AppConfig;
use crate::router::Router;
use crate::templates::{tera_accepts, TemplateError, TemplateRegistry};
use crate::text::{ends_with, str_ends_with};
use vstd::utf8::{decode_utf8, valid_utf8};

verus! {

/// Relies on std's `str::from_utf8`: it succeeds exactly on valid UTF-8 and
/// decodes the bytes.
#[verifier::external_body]
fn decode_utf8_vec(b: &Vec<u8>) -> (r: Option<String>)
    ensures
        r is Some <==> valid_utf8(b@),
        r is Some ==> r.unwrap()@ == decode_utf8(b@),
{
    match std::str::from_utf8(b.as_slice()) {
        Ok(s) => Some(s.to_owned()),
        Err(_) => None,
    }
}

/// The template set a file list yields: every `.html` entry whose bytes are
/// valid UTF-8 is registered in order under its file name with its decoded
/// text, a later entry replacing an earlier one of the same name.  An entry
/// that is not valid UTF-8 is skipped.
pub open spec fn templates_from(files: Seq<(Seq<char>, Seq<u8>)>) -> Map<Seq<char>, Seq<char>>
    decreases files.len(),
{
    if files.len() == 0 {
        Map::empty()
    } else {
        let m = templates_from(files.drop_last());
        let name = files.last().0;
        let bytes = files.last().1;
        if ends_with(name, ".html"@) && valid_utf8(bytes) {
            m.insert(name, decode_utf8(bytes))
        } else {
            m
        }
    }
}

/// The outcome of compiling a file list into the template registry, step
/// by step: `Some` of the template table when the engine accepts every
/// registrable (`.html`, valid UTF-8) entry against the table built so far,
/// `None` as soon as it refuses one.
pub open spec fn load_outcome(files: Seq<(Seq<char>, Seq<u8>)>) -> Option<
    Map<Seq<char>, Seq<char>>,
>
    decreases files.len(),
{
    if files.len() == 0 {
        Some(Map::empty())
    } else {
        match load_outcome(files.drop_last()) {
            None => None,
            Some(m) => {
                let name = files.last().0;
                let bytes = files.last().1;
                if ends_with(name, ".html"@) && valid_utf8(bytes) {
                    if tera_accepts(m, name, decode_utf8(bytes)) {
                        Some(m.insert(name, decode_utf8(bytes)))
                    } else {
                        None
                    }
                } else {
                    Some(m)
                }
            },
        }
    }
}

/// Once some prefix of the file list is refused, the whole list is.
proof fn lemma_load_outcome_none_extends(files: Seq<(Seq<char>, Seq<u8>)>, k: int)
    requires
        0 <= k <= files.len(),
        load_outcome(files.take(k)) is None,
    ensures
        load_outcome(files) is None,
    decreases files.len() - k,
{
    if k < files.len() {
        assert(files.take(k + 1).drop_last() =~= files.take(k));
        lemma_load_outcome_none_extends(files, k + 1);
    } else {
        assert(files.take(k) =~= files);
    }
}

/// The full application state, assembled once at startup.
pub struct AppSet {
    pub app_config: AppConfig,
    pub err_handler: ErrHandler,
    pub handler: Router,
}

impl AppSet {
    /// Compiles every `.html` entry into the template registry, in entry
    /// order.  A source the engine refuses is fatal: a broken template is a
    /// deployment error, so startup must not proceed past it.  The call
    /// fails exactly when `load_outcome` says the engine refuses some
    /// registrable entry.
    pub fn load_template_html(files: &Vec<(String, Vec<u8>)>) -> (r: Result<
        TemplateRegistry,
        TemplateError,
    >)
        ensures
            r is Ok <==> load_outcome(file_views(files@)) is Some,
            r is Ok ==> r.unwrap()@ == templates_from(file_views(files@)),
    {
        let mut registry = TemplateRegistry::new();
        let n = files.len();
        let mut i: usize = 0;
        while i < n
            invariant
                i <= n,
                n == files@.len(),
                registry@ == templates_from(file_views(files@).take(i as int)),
                load_outcome(file_views(files@).take(i as int)) == Some(registry@),
            decreases n - i,
        {
            let name = &files[i].0;
            if str_ends_with(name.as_str(), ".html") {
                match decode_utf8_vec(&files[i].1) {
                    Some(source) => {
                        match registry.register(name.as_str(), source.as_str()) {
                            Ok(()) => (),
                            Err(e) => {
                                proof {
                                    assert(file_views(files@).take(i as int + 1).drop_last()
                                        =~= file_views(files@).take(i as int));
                                    assert(load_outcome(file_views(files@).take(i as int + 1))
                                        is None);
                                    lemma_load_outcome_none_extends(
                                        file_views(files@),
                                        i as int + 1,
                                    );
                                }
                                return Err(e);
                            },
                        }
                    },
                    None => (),
                }
            }
            i += 1;
            proof {
                assert(file_views(files@).take(i as int).drop_last() =~= file_views(files@).take(
                    i as int - 1,
                ));
                assert(registry@ =~= templates_from(file_views(files@).take(i as int)));
            }
        }
        proof {
            assert(file_views(files@).take(n as int) =~= file_views(files@));
        }
        Ok(registry)
    }

    /// Assembles the application state from the startup scan: the entries
    /// become the asset store (a later duplicate name winning) and their
    /// `.html` members the shared template set; the error handler and the
    /// router each get a handle on the templates, and the configuration is
    /// kept as given.  Fails exactly when the engine refuses some
    /// registrable template source, as `load_outcome` states.
    pub fn new(app_config: AppConfig, files: Vec<(String, Vec<u8>)>) -> (r: Result<
        AppSet,
        TemplateError,
    >)
        ensures
            r is Ok <==> load_outcome(file_views(files@)) is Some,
            r is Ok ==> r.unwrap().app_config == app_config,
            r is Ok ==> r.unwrap().handler.static_cache@ == store_of(file_views(files@)),
            r is Ok ==> r.unwrap().handler.template@ == templates_from(file_views(files@)),
            r is Ok ==> r.unwrap().err_handler.err_page_template@ == templates_from(
                file_views(files@),
            ),
    {
        let template = match AppSet::load_template_html(&files) {
            Ok(t) => t,
            Err(e) => {
                return Err(e);
            },
        };
        let err_registry = template.duplicate();
        let static_cache = StaticAssetStore::from_entries(files);
        let err_handler = ErrHandler::new(err_registry);
        let handler = Router::new(&app_config, template, static_cache);
        Ok(AppSet { app_config, err_handler, handler })
    }
}

} // verus!
