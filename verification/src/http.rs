//! Plain request and response values exchanged with the surrounding HTTP
//! layer.  The transport itself lives outside this crate and hands these
//! values in and out.

use vstd::prelude::*;

verus! {

/// What the core reads from an inbound request: the request path and the
/// headers the error page reports.  An absent header is `None`.
pub struct RequestMeta {
    pub path: String,
    pub host: Option<String>,
    pub connection: Option<String>,
    pub user_agent: Option<String>,
    pub forwarded_ip: Option<String>,
    pub accept_encoding: Option<String>,
    pub accept_language: Option<String>,
}

/// A response body: rendered text, or raw asset bytes.
pub enum ResponseBody {
    Text(String),
    Bytes(Vec<u8>),
}

/// What the core hands back: a status code, a content type and a body.
pub struct Response {
    pub status: u16,
    pub content_type: String,
    pub body: ResponseBody,
}

/// The body is text with content `s`.
pub open spec fn is_text(b: ResponseBody, s: Seq<char>) -> bool {
    match b {
        ResponseBody::Text(t) => t@ == s,
        ResponseBody::Bytes(_) => false,
    }
}

/// The body is raw bytes with content `s`.
pub open spec fn is_bytes(b: ResponseBody, s: Seq<u8>) -> bool {
    match b {
        ResponseBody::Text(_) => false,
        ResponseBody::Bytes(t) => t@ == s,
    }
}

/// The two bodies hold the same content.
pub open spec fn body_eq(a: ResponseBody, b: ResponseBody) -> bool {
    match (a, b) {
        (ResponseBody::Text(x), ResponseBody::Text(y)) => x@ == y@,
        (ResponseBody::Bytes(x), ResponseBody::Bytes(y)) => x@ == y@,
        _ => false,
    }
}

/// The two responses agree on status, content type and body content.
pub open spec fn response_eq(a: Response, b: Response) -> bool {
    a.status == b.status && a.content_type@ == b.content_type@ && body_eq(a.body, b.body)
}

} // verus!
