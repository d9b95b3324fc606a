//! The template registry: a thin verified shell around the `tera` template
//! engine.
//!
//! The engine itself is a black box with a render-by-name contract; what is
//! tracked here is which template names are registered and with which source
//! text.  Template sources are parsed once at startup and never change.

use vstd::prelude::*;
use crate::text::views_of;

verus! {

#[verifier::external_type_specification]
#[verifier::external_body]
pub struct ExTera(tera::Tera);

#[verifier::external_type_specification]
#[verifier::external_body]
pub struct ExTeraContext(tera::Context);

#[verifier::external_type_specification]
#[verifier::external_body]
pub struct ExTeraError(tera::Error);

/// The templates a `tera::Tera` engine holds, as a map from template name to
/// the source text it was registered with.
pub uninterp spec fn templates_of(t: tera::Tera) -> Map<Seq<char>, Seq<char>>;

/// Whether the engine accepts `content` as a template under `name` when the
/// sources in `templates` are already registered.  Acceptance (parsing plus
/// the inheritance and reference checks) is a function of these sources
/// alone for engines as this crate builds them: nothing here changes the
/// default delimiters, filters, tests or functions.
pub uninterp spec fn tera_accepts(
    templates: Map<Seq<char>, Seq<char>>,
    name: Seq<char>,
    content: Seq<char>,
) -> bool;

/// A value a render context can hold: a string, a list of strings, or a
/// string-to-string table.
pub enum ContextValue {
    Str(Seq<char>),
    StrList(Seq<Seq<char>>),
    StrMap(Map<Seq<char>, Seq<char>>),
}

/// What a `tera::Context` holds: the values inserted so far, by key.
pub uninterp spec fn context_of(c: tera::Context) -> Map<Seq<char>, ContextValue>;

/// The contents of a context with nothing inserted.
pub open spec fn empty_context() -> Map<Seq<char>, ContextValue> {
    Map::empty()
}

/// The string-to-string table a sequence of pairs builds up, a later pair
/// with the same key winning.
pub open spec fn map_of_pairs(pairs: Seq<(Seq<char>, Seq<char>)>) -> Map<Seq<char>, Seq<char>>
    decreases pairs.len(),
{
    if pairs.len() == 0 {
        Map::empty()
    } else {
        map_of_pairs(pairs.drop_last()).insert(pairs.last().0, pairs.last().1)
    }
}

/// The template table of an engine with nothing registered.
pub open spec fn no_templates() -> Map<Seq<char>, Seq<char>> {
    Map::empty()
}

/// Relies on `tera::Tera::default`: a fresh engine holds no templates and no
/// fallback prefixes, so later lookups consult exactly the registered names.
#[verifier::external_body]
pub(crate) fn tera_empty() -> (t: tera::Tera)
    ensures
        templates_of(t) == no_templates(),
{
    tera::Tera::default()
}

/// Relies on the derived `Clone` of `tera::Tera`, which copies the template
/// table as it stands.
#[verifier::external_body]
pub(crate) fn tera_clone(t: &tera::Tera) -> (r: tera::Tera)
    ensures
        templates_of(r) == templates_of(*t),
{
    t.clone()
}

/// Relies on `tera::Tera::add_raw_template`: whether the source is accepted
/// is decided by parsing and the inheritance checks, a function of the
/// registered sources and the new one; on success the template is
/// registered under `name` with source `content`; on failure the engine
/// restores its templates unchanged.
#[verifier::external_body]
pub(crate) fn tera_add_raw(t: &mut tera::Tera, name: &str, content: &str) -> (r: Result<
    (),
    tera::Error,
>)
    ensures
        r is Ok <==> tera_accepts(templates_of(*old(t)), name@, content@),
        r is Ok ==> templates_of(*final(t)) == templates_of(*old(t)).insert(name@, content@),
        r is Err ==> templates_of(*final(t)) == templates_of(*old(t)),
{
    t.add_raw_template(name, content)
}

/// Relies on `tera::Tera::render`: rendering a name that is not registered
/// fails.  Nothing is assumed of the produced text: a template may walk a
/// table with `for`, and the engine iterates its hash maps in an order that
/// varies between processes, so the text is not a function of the call's
/// arguments.
#[verifier::external_body]
pub(crate) fn tera_render(t: &tera::Tera, name: &str, context: &tera::Context) -> (r: Result<
    String,
    tera::Error,
>)
    ensures
        !templates_of(*t).contains_key(name@) ==> r is Err,
{
    t.render(name, context)
}

/// Relies on `tera::Context::new` for an empty render context.
#[verifier::external_body]
pub(crate) fn context_empty() -> (c: tera::Context)
    ensures
        context_of(c) == empty_context(),
{
    tera::Context::new()
}

/// Relies on `tera::Context::insert` to bind a string value.
#[verifier::external_body]
pub(crate) fn context_insert_str(c: &mut tera::Context, key: &str, value: &str)
    ensures
        context_of(*final(c)) == context_of(*old(c)).insert(key@, ContextValue::Str(value@)),
{
    c.insert(key.to_owned(), value)
}

/// Relies on `tera::Context::insert` to bind a list of strings.
#[verifier::external_body]
pub(crate) fn context_insert_str_list(c: &mut tera::Context, key: &str, values: &Vec<String>)
    ensures
        context_of(*final(c)) == context_of(*old(c)).insert(
            key@,
            ContextValue::StrList(views_of(values@)),
        ),
{
    c.insert(key.to_owned(), values)
}

/// Relies on `tera::Context::insert` to bind a string-to-string table given
/// as pairs; a later pair with the same key wins, as in `map_of_pairs`.
#[verifier::external_body]
pub(crate) fn context_insert_str_pairs(
    c: &mut tera::Context,
    key: &str,
    pairs: &Vec<(String, String)>,
)
    ensures
        context_of(*final(c)) == context_of(*old(c)).insert(
            key@,
            ContextValue::StrMap(map_of_pairs(crate::text::pair_views(pairs@))),
        ),
{
    let table: std::collections::BTreeMap<&str, &str> =
        pairs.iter().map(|p| (p.0.as_str(), p.1.as_str())).collect();
    c.insert(key.to_owned(), &table)
}

/// A template source the engine refused at registration.  A broken template
/// is a deployment error, so startup treats this as fatal.
#[derive(Debug)]
pub enum TemplateError {
    Invalid,
}

/// The set of compiled templates, registered once at startup, immutable and
/// shared read-only afterwards.  Its view maps each registered template name
/// to its source text.
pub struct TemplateRegistry {
    pub(crate) engine: tera::Tera,
}

impl View for TemplateRegistry {
    type V = Map<Seq<char>, Seq<char>>;

    closed spec fn view(&self) -> Map<Seq<char>, Seq<char>> {
        templates_of(self.engine)
    }
}

impl TemplateRegistry {
    /// A registry with no templates.
    pub fn new() -> (r: TemplateRegistry)
        ensures
            r@ == no_templates(),
    {
        TemplateRegistry { engine: tera_empty() }
    }

    /// Registers `source` under `name`, replacing an earlier template of the
    /// same name.  A source the engine cannot parse is rejected and the
    /// registry stands unchanged.
    pub fn register(&mut self, name: &str, source: &str) -> (r: Result<(), TemplateError>)
        ensures
            r is Ok <==> tera_accepts(old(self)@, name@, source@),
            r is Ok ==> final(self)@ == old(self)@.insert(name@, source@),
            r is Err ==> final(self)@ == old(self)@,
    {
        match tera_add_raw(&mut self.engine, name, source) {
            Ok(()) => Ok(()),
            Err(_) => Err(TemplateError::Invalid),
        }
    }

    /// The registry's view is its engine's template table.
    pub(crate) proof fn view_is_engine(&self)
        ensures
            self@ == templates_of(self.engine),
    {
    }

    /// A second handle on the same immutable template set.
    pub fn duplicate(&self) -> (r: TemplateRegistry)
        ensures
            r@ == self@,
    {
        TemplateRegistry { engine: tera_clone(&self.engine) }
    }
}

} // verus!
