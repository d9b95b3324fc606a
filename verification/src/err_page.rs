//! The status-driven error page renderer.
//!
//! A status code and the request's metadata are turned into a render
//! context — label, family color, ordered suggestions and a debug table —
//! and pushed through the error template.  A render failure degrades to a
//! minimal plain body; the status code is never changed by rendering.

use vstd::prelude::*;
use crate::http::{is_text, RequestMeta, Response, ResponseBody};
use crate::status::{color_of, label_of, suggestions_of, StatusCatalog};
use crate::templates::{
    context_empty, context_insert_str, context_insert_str_list, context_insert_str_pairs,
    context_of, empty_context, map_of_pairs, tera_render, ContextValue, TemplateRegistry,
};
use crate::text::{dec_seq, pair_views, u16_dec, views_of};

verus! {

/// Relies on chrono's `Utc::now` with `DateTime::to_rfc3339` for the render
/// timestamp.  The result depends on the clock, so nothing is assumed of
/// it.
#[verifier::external_body]
fn now_rfc3339() -> (r: String) {
    chrono::Utc::now().to_rfc3339()
}

/// The header value the debug table reports: the header itself, or
/// `"Unknown"` when the request did not carry it.
pub open spec fn or_unknown(h: Option<String>) -> Seq<char> {
    match h {
        Some(s) => s@,
        None => "Unknown"@,
    }
}

fn header_or_unknown(h: &Option<String>) -> (r: String)
    ensures
        r@ == or_unknown(*h),
{
    match h {
        Some(s) => s.clone(),
        None => "Unknown".to_owned(),
    }
}

/// The debug table of an error page: fixed keys in a fixed order, each
/// header defaulting to `"Unknown"`, plus the render timestamp `ts`.
pub open spec fn debug_pairs(meta: RequestMeta, ts: Seq<char>) -> Seq<(Seq<char>, Seq<char>)> {
    seq![
        ("Host"@, or_unknown(meta.host)),
        ("Path"@, meta.path@),
        ("Connection"@, or_unknown(meta.connection)),
        ("User-Agent"@, or_unknown(meta.user_agent)),
        ("Last-Time"@, ts),
        ("Cf-Connecting-Ip"@, or_unknown(meta.forwarded_ip)),
        ("Accept-Encoding"@, or_unknown(meta.accept_encoding)),
        ("Accept-Language"@, or_unknown(meta.accept_language)),
    ]
}

/// The values handed to the error template: everything the page shows.
/// Built per response, discarded after rendering.
pub struct RenderContext {
    pub code: String,
    pub label: String,
    pub color: String,
    pub suggestions: Vec<String>,
    pub debug_info: Vec<(String, String)>,
}

/// `rc` is exactly the render context for status `code`, request metadata
/// `meta` and timestamp `ts`.
pub open spec fn render_context_ok(
    rc: RenderContext,
    code: u16,
    meta: RequestMeta,
    ts: Seq<char>,
) -> bool {
    &&& rc.code@ == dec_seq(code as int)
    &&& rc.label@ == label_of(code)
    &&& rc.color@ == color_of(code / 100)
    &&& views_of(rc.suggestions@) == suggestions_of(code)
    &&& pair_views(rc.debug_info@) == debug_pairs(meta, ts)
}

/// The contents of the context a `RenderContext` is handed to the engine
/// in: the five variables of the error-template interface, bound to the
/// assembled values.
pub open spec fn rc_context_map(rc: RenderContext) -> Map<Seq<char>, ContextValue> {
    empty_context().insert("code"@, ContextValue::Str(rc.code@)).insert(
        "ms"@,
        ContextValue::Str(rc.label@),
    ).insert("color"@, ContextValue::Str(rc.color@)).insert(
        "suggestions"@,
        ContextValue::StrList(views_of(rc.suggestions@)),
    ).insert("debug_info"@, ContextValue::StrMap(map_of_pairs(pair_views(rc.debug_info@))))
}

/// The page body for a render outcome: the rendered text when the engine
/// succeeded, else a minimal plain diagnostic.
pub fn error_body_for(rendered: Result<String, tera::Error>) -> (r: String)
    ensures
        rendered is Ok ==> r == rendered.unwrap(),
        rendered is Err ==> r@ == "Error rendering template"@,
{
    match rendered {
        Ok(s) => s,
        Err(_) => "Error rendering template".to_owned(),
    }
}

/// Builds the engine-side render context for `rc`: exactly the bindings of
/// the error-template interface — `code`, `ms`, `color`, `suggestions` and
/// `debug_info` — and nothing else.
pub fn build_tera_context(rc: &RenderContext) -> (c: tera::Context)
    ensures
        context_of(c) == rc_context_map(*rc),
{
    let mut context = context_empty();
    context_insert_str(&mut context, "code", rc.code.as_str());
    context_insert_str(&mut context, "ms", rc.label.as_str());
    context_insert_str(&mut context, "color", rc.color.as_str());
    context_insert_str_list(&mut context, "suggestions", &rc.suggestions);
    context_insert_str_pairs(&mut context, "debug_info", &rc.debug_info);
    proof {
        assert(context_of(context) =~= rc_context_map(*rc));
    }
    context
}

/// The error page renderer: the status catalog plus the template set that
/// holds the error template.
pub struct ErrHandler {
    pub catalog: StatusCatalog,
    pub err_page_template: TemplateRegistry,
}

impl ErrHandler {
    /// Builds the renderer over the given template set.
    pub fn new(templates: TemplateRegistry) -> (r: ErrHandler)
        ensures
            r.err_page_template@ == templates@,
    {
        ErrHandler { catalog: StatusCatalog::new(), err_page_template: templates }
    }

    /// Assembles the render context for `status_code`: the documented label
    /// (or its fallback), the family color, the authored suggestion order,
    /// and the debug table with `"Unknown"` for each absent header.
    pub fn build_context(&self, status_code: u16, meta: &RequestMeta, timestamp: String) -> (rc:
        RenderContext)
        ensures
            render_context_ok(rc, status_code, *meta, timestamp@),
    {
        let code = u16_dec(status_code);
        let label = self.catalog.label(status_code);
        let color = self.catalog.color(status_code);
        let suggestions = self.catalog.suggestions(status_code);
        let mut debug_info: Vec<(String, String)> = Vec::new();
        debug_info.push(("Host".to_owned(), header_or_unknown(&meta.host)));
        debug_info.push(("Path".to_owned(), meta.path.clone()));
        debug_info.push(("Connection".to_owned(), header_or_unknown(&meta.connection)));
        debug_info.push(("User-Agent".to_owned(), header_or_unknown(&meta.user_agent)));
        debug_info.push(("Last-Time".to_owned(), timestamp));
        debug_info.push(("Cf-Connecting-Ip".to_owned(), header_or_unknown(&meta.forwarded_ip)));
        debug_info.push(("Accept-Encoding".to_owned(), header_or_unknown(&meta.accept_encoding)));
        debug_info.push(("Accept-Language".to_owned(), header_or_unknown(&meta.accept_language)));
        let rc = RenderContext { code, label, color, suggestions, debug_info };
        proof {
            assert(pair_views(rc.debug_info@) =~= debug_pairs(*meta, timestamp@));
        }
        rc
    }

    /// Renders an assembled context through the error template.  The engine
    /// is handed a context holding exactly the five interface variables, as
    /// `build_tera_context` states.
    fn render_error_context(&self, rc: &RenderContext) -> (r: Result<String, tera::Error>)
        ensures
            !self.err_page_template@.contains_key("err_template.html"@) ==> r is Err,
    {
        let context = build_tera_context(rc);
        proof {
            self.err_page_template.view_is_engine();
        }
        tera_render(&self.err_page_template.engine, "err_template.html", &context)
    }

    /// Generates the full error page for `status_code` and the request's
    /// metadata.  The response keeps exactly the given status code and a
    /// `text/html` content type; when the error template is missing or
    /// fails to render, the body is the minimal plain diagnostic instead.
    pub fn page_generate(&self, status_code: u16, meta: &RequestMeta) -> (r: Response)
        ensures
            r.status == status_code,
            r.content_type@ == "text/html"@,
            r.body is Text,
            !self.err_page_template@.contains_key("err_template.html"@) ==> is_text(
                r.body,
                "Error rendering template"@,
            ),
    {
        let timestamp = now_rfc3339();
        let rc = self.build_context(status_code, meta, timestamp);
        let rendered = self.render_error_context(&rc);
        let body = error_body_for(rendered);
        Response {
            status: status_code,
            content_type: "text/html".to_owned(),
            body: ResponseBody::Text(body),
        }
    }
}

} // verus!
