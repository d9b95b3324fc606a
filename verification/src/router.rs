//! The router: resolves a request path against the immutable asset store
//! and answers with the asset, a rendered template, or a 404.
//!
//! An asset whose name ends in `.html` is treated as template source and
//! rendered through the registry rather than served verbatim; every other
//! asset is served as raw bytes under the MIME type its extension suggests.

use vstd::prelude::*;
use crate::assets::{copy_bytes, StaticAssetStore};
use crate::http::{is_bytes, is_text, response_eq, RequestMeta, Response, ResponseBody};
use crate::init::AppConfig;
use crate::templates::{context_empty, tera_render, TemplateRegistry};
use crate::text::{ends_with, normalize_path, normalize_path_spec, str_ends_with};

verus! {

/// The MIME type `mime_guess` assigns to a path by its extension; an
/// unknown or missing extension falls back to the generic octet-stream
/// type.
pub uninterp spec fn mime_for(path: Seq<char>) -> Seq<char>;

/// Relies on `mime_guess::from_path` with
/// `MimeGuess::first_or_octet_stream`: the guess is a pure function of the
/// path, answered from a static extension table.
#[verifier::external_body]
fn resolve_content_type(path: &str) -> (r: String)
    ensures
        r@ == mime_for(path@),
{
    mime_guess::from_path(path).first_or_octet_stream().as_ref().to_owned()
}

/// What `Router::handle_request` promises for request path `path` against
/// asset store `store`: a miss is a 404 with a plain "not found" body, a
/// non-HTML hit serves the stored bytes under the path's MIME type, and an
/// HTML hit either renders to text under 200 or degrades to a plain 500
/// diagnostic.  Only the text of a successful render is the engine's.
pub open spec fn routed_ok(store: Map<Seq<char>, Seq<u8>>, path: Seq<char>, r: Response) -> bool {
    let p = normalize_path_spec(path);
    if !store.contains_key(p) {
        &&& r.status == 404
        &&& r.content_type@ == "text/plain"@
        &&& is_text(r.body, "404 Not Found"@)
    } else if !ends_with(p, ".html"@) {
        &&& r.status == 200
        &&& r.content_type@ == mime_for(p)
        &&& is_bytes(r.body, store[p])
    } else {
        ||| (r.status == 200 && r.content_type@ == "text/html"@ && r.body is Text)
        ||| (r.status == 500 && r.content_type@ == "text/plain"@ && is_text(
            r.body,
            "Template rendering error"@,
        ))
    }
}

/// The request dispatcher.  Both fields are populated once at startup and
/// only read afterwards.
pub struct Router {
    pub template: TemplateRegistry,
    pub static_cache: StaticAssetStore,
}

impl Router {
    /// Builds a router over the given template set and asset store.
    pub fn new(
        _app_config: &AppConfig,
        template: TemplateRegistry,
        static_cache: StaticAssetStore,
    ) -> (r: Router)
        ensures
            r.template@ == template@,
            r.static_cache@ == static_cache@,
    {
        Router { template, static_cache }
    }

    /// Resolves one request.  Total: every path gets a response, and a miss
    /// is an ordinary 404, never a failure.
    pub fn handle_request(&self, req: &RequestMeta) -> (r: Response)
        ensures
            routed_ok(self.static_cache@, req.path@, r),
            ends_with(normalize_path_spec(req.path@), ".html"@) && self.static_cache@.contains_key(
                normalize_path_spec(req.path@),
            ) && !self.template@.contains_key(normalize_path_spec(req.path@)) ==> r.status == 500,
    {
        let path = normalize_path(req.path.as_str());
        match self.static_cache.get(path.as_str()) {
            Some(content) => self.handle_static_file(path.as_str(), content),
            None => Response {
                status: 404,
                content_type: "text/plain".to_owned(),
                body: ResponseBody::Text("404 Not Found".to_owned()),
            },
        }
    }

    /// Serves a found asset: HTML goes through the template engine, anything
    /// else is raw bytes under its guessed MIME type.
    fn handle_static_file(&self, path: &str, content: &Vec<u8>) -> (r: Response)
        ensures
            ends_with(path@, ".html"@) ==> {
                &&& {
                    ||| (r.status == 200 && r.content_type@ == "text/html"@ && r.body is Text)
                    ||| (r.status == 500 && r.content_type@ == "text/plain"@ && is_text(
                        r.body,
                        "Template rendering error"@,
                    ))
                }
                &&& !self.template@.contains_key(path@) ==> r.status == 500
            },
            !ends_with(path@, ".html"@) ==> r.status == 200 && r.content_type@ == mime_for(path@)
                && is_bytes(r.body, content@),
    {
        if str_ends_with(path, ".html") {
            self.render_template(path)
        } else {
            let mime_type = resolve_content_type(path);
            Response {
                status: 200,
                content_type: mime_type,
                body: ResponseBody::Bytes(copy_bytes(content)),
            }
        }
    }

    /// Renders a stored HTML asset as a template with an empty context; a
    /// render failure degrades to a plain 500 diagnostic, as
    /// `template_response_for` states case by case.
    fn render_template(&self, path: &str) -> (r: Response)
        ensures
            (r.status == 200 && r.content_type@ == "text/html"@ && r.body is Text) || (r.status
                == 500 && r.content_type@ == "text/plain"@ && is_text(
                r.body,
                "Template rendering error"@,
            )),
            !self.template@.contains_key(path@) ==> r.status == 500,
    {
        proof {
            self.template.view_is_engine();
        }
        let context = context_empty();
        let rendered = tera_render(&self.template.engine, path, &context);
        template_response_for(rendered)
    }
}

/// The response for a template-render outcome: the rendered text under 200
/// and `text/html` when the engine succeeded, else the plain 500
/// diagnostic.  Success is never hidden and failure never crashes: the
/// correlation between the engine's answer and the response is fixed here,
/// for every value the engine can return.
pub fn template_response_for(rendered: Result<String, tera::Error>) -> (r: Response)
    ensures
        rendered is Ok ==> r.status == 200 && r.content_type@ == "text/html"@ && is_text(
            r.body,
            rendered.unwrap()@,
        ),
        rendered is Err ==> r.status == 500 && r.content_type@ == "text/plain"@ && is_text(
            r.body,
            "Template rendering error"@,
        ),
{
    match rendered {
        Ok(body) => Response {
            status: 200,
            content_type: "text/html".to_owned(),
            body: ResponseBody::Text(body),
        },
        Err(_) => Response {
            status: 500,
            content_type: "text/plain".to_owned(),
            body: ResponseBody::Text("Template rendering error".to_owned()),
        },
    }
}

/// Routing is idempotent: two responses to one request against one store
/// agree wherever the route pins the response down, that is on every miss
/// and on every raw (non-HTML) asset.  For an HTML hit the status and
/// content type agree case by case, but the rendered text is the template
/// engine's own: the engine walks its hash maps in an order that can vary
/// between processes, so no contract equates two renders.
pub proof fn lemma_handle_request_idempotent(
    store: Map<Seq<char>, Seq<u8>>,
    path: Seq<char>,
    r1: Response,
    r2: Response,
)
    requires
        routed_ok(store, path, r1),
        routed_ok(store, path, r2),
        !store.contains_key(normalize_path_spec(path)) || !ends_with(
            normalize_path_spec(path),
            ".html"@,
        ),
    ensures
        response_eq(r1, r2),
{
}

} // verus!
