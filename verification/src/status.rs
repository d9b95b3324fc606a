//! The status catalog: total lookup tables from an HTTP status code to a
//! human label, from a status family to a display color, and from a status
//! code to an ordered list of remediation suggestions.
//!
//! Every lookup has a documented fallback, so no code is ever an error here.
//! The suggestion lists are ordered sequences; their authored order is part
//! of the contract and is preserved exactly.

use vstd::prelude::*;
use crate::text::views_of;

verus! {

/// The label the catalog documents for `code`; `"Unknown Error"` for a code
/// outside the catalog.
pub open spec fn label_of(code: u16) -> Seq<char> {
    if code == 400 {
        "BadRequest"@
    } else if code == 401 {
        "Unauthorized"@
    } else if code == 403 {
        "Forbidden"@
    } else if code == 404 {
        "NotFound"@
    } else if code == 405 {
        "MethodNotAllowed"@
    } else if code == 406 {
        "NotAcceptable"@
    } else if code == 408 {
        "RequestTimeout"@
    } else if code == 409 {
        "Conflict"@
    } else if code == 410 {
        "Gone"@
    } else if code == 411 {
        "LengthRequired"@
    } else if code == 412 {
        "PreconditionFailed"@
    } else if code == 413 {
        "RequestEntityTooLarge"@
    } else if code == 414 {
        "RequestURITooLarge"@
    } else if code == 415 {
        "UnsupportedMediaType"@
    } else if code == 416 {
        "RequestedRangeNotSatisfiable"@
    } else if code == 417 {
        "ExpectationFailed"@
    } else if code == 418 {
        "ImATeapot"@
    } else if code == 422 {
        "UnprocessableEntity"@
    } else if code == 423 {
        "Locked"@
    } else if code == 424 {
        "FailedDependency"@
    } else if code == 428 {
        "PreconditionRequired"@
    } else if code == 429 {
        "TooManyRequests"@
    } else if code == 431 {
        "RequestHeaderFieldsTooLarge"@
    } else if code == 451 {
        "UnavailableForLegalReasons"@
    } else if code == 500 {
        "InternalServerError"@
    } else if code == 501 {
        "NotImplemented"@
    } else if code == 502 {
        "BadGateway"@
    } else if code == 503 {
        "ServiceUnavailable"@
    } else if code == 504 {
        "GatewayTimeout"@
    } else if code == 505 {
        "HTTPVersionNotSupported"@
    } else if code == 506 {
        "VariantAlsoNegotiates"@
    } else if code == 507 {
        "InsufficientStorage"@
    } else if code == 508 {
        "LoopDetected"@
    } else if code == 510 {
        "NotExtended"@
    } else if code == 511 {
        "NetworkAuthenticationRequired"@
    } else {
        "Unknown Error"@
    }
}

/// The display color for a status family (the leading digit of a code);
/// a neutral color for a family outside the table.
pub open spec fn color_of(family: u16) -> Seq<char> {
    if family == 4 {
        "#ff9900ff"@
    } else if family == 5 {
        "#ff0000bb"@
    } else {
        "#ffffff"@
    }
}

/// The ordered remediation suggestions for `code`; empty for a code without
/// an entry.
pub open spec fn suggestions_of(code: u16) -> Seq<Seq<char>> {
    if code == 400 {
        seq!["Check the request syntax"@, "Verify the request parameters"@, "Ensure the URL is correct"@]
    } else if code == 401 {
        seq!["Check the authentication credentials"@, "Login again"@, "Contact the website administrator"@]
    } else if code == 403 {
        seq!["Check the URL for errors"@, "Request access from the administrator"@, "Ensure you have the necessary permissions"@]
    } else if code == 404 {
        seq!["Check the URL"@, "Reload the page"@, "Clear the browser cache"@, "Try using another browser"@, "Contact customer support"@]
    } else if code == 405 {
        seq!["Check the request method (GET, POST, etc.)"@, "Refer to the website's API documentation"@, "Ensure the method is supported"@]
    } else if code == 406 {
        seq!["Check the requested media type."@, "Ensure server supports the requested format."@]
    } else if code == 407 {
        seq!["Verify proxy authentication."@, "Contact network administrator for proxy details."@]
    } else if code == 408 {
        seq!["Check your internet connection"@, "Ensure the server is not overloaded"@, "Retry the request after a moment"@]
    } else if code == 409 {
        seq!["Resolve conflicting resources."@, "Ensure request data is consistent."@]
    } else if code == 410 {
        seq!["This resource is no longer available."@, "Contact the website administrator for information."@]
    } else if code == 411 {
        seq!["Set 'Content-Length' header in request."@]
    } else if code == 412 {
        seq!["Verify request preconditions."@, "Adjust precondition headers."@]
    } else if code == 413 {
        seq!["Reduce the request entity size."@, "Contact administrator for size limits."@]
    } else if code == 414 {
        seq!["Simplify the URL length."@, "Use a shorter URL structure."@]
    } else if code == 415 {
        seq!["Check the media type in request."@, "Ensure server supports media type."@]
    } else if code == 416 {
        seq!["Check requested range headers."@]
    } else if code == 417 {
        seq!["Check 'Expect' request header."@]
    } else if code == 418 {
        seq!["I'm a teapot, not a coffee machine."@]
    } else if code == 422 {
        seq!["Check request syntax and data."@]
    } else if code == 429 {
        seq!["Reduce the frequency of requests."@, "Wait before sending more requests."@]
    } else if code == 431 {
        seq!["Reduce header data size."@]
    } else if code == 500 {
        seq!["Wait a few moments and retry the request"@, "Check the website's social media for updates"@, "Contact customer support"@]
    } else if code == 501 {
        seq!["Verify the request method is correct"@, "Check if the feature is implemented"@, "Contact the website administrator"@]
    } else if code == 502 {
        seq!["Check your internet connection"@, "Wait a few moments and retry the request"@, "Contact the website if the issue persists"@]
    } else if code == 503 {
        seq!["Check if the website is under maintenance"@, "Wait and retry later"@, "Contact the website for more information"@]
    } else if code == 504 {
        seq!["Check your internet connection"@, "Ensure the server is reachable"@, "Retry the request after a moment"@]
    } else if code == 505 {
        seq!["Verify the HTTP version used."@, "Contact administrator to check version support."@]
    } else if code == 511 {
        seq!["Authenticate to access network."@]
    } else {
        Seq::empty()
    }
}

/// The static status tables.  The data is immutable for the process
/// lifetime; a value of this type is only a handle to it.
pub struct StatusCatalog {
}

impl StatusCatalog {
    /// Builds the catalog.
    pub fn new() -> (r: StatusCatalog) {
        StatusCatalog {  }
    }

    /// Total label lookup: the documented label, or `"Unknown Error"`.
    pub fn label(&self, code: u16) -> (r: String)
        ensures
            r@ == label_of(code),
    {
        match code {
            400 => "BadRequest".to_owned(),
            401 => "Unauthorized".to_owned(),
            403 => "Forbidden".to_owned(),
            404 => "NotFound".to_owned(),
            405 => "MethodNotAllowed".to_owned(),
            406 => "NotAcceptable".to_owned(),
            408 => "RequestTimeout".to_owned(),
            409 => "Conflict".to_owned(),
            410 => "Gone".to_owned(),
            411 => "LengthRequired".to_owned(),
            412 => "PreconditionFailed".to_owned(),
            413 => "RequestEntityTooLarge".to_owned(),
            414 => "RequestURITooLarge".to_owned(),
            415 => "UnsupportedMediaType".to_owned(),
            416 => "RequestedRangeNotSatisfiable".to_owned(),
            417 => "ExpectationFailed".to_owned(),
            418 => "ImATeapot".to_owned(),
            422 => "UnprocessableEntity".to_owned(),
            423 => "Locked".to_owned(),
            424 => "FailedDependency".to_owned(),
            428 => "PreconditionRequired".to_owned(),
            429 => "TooManyRequests".to_owned(),
            431 => "RequestHeaderFieldsTooLarge".to_owned(),
            451 => "UnavailableForLegalReasons".to_owned(),
            500 => "InternalServerError".to_owned(),
            501 => "NotImplemented".to_owned(),
            502 => "BadGateway".to_owned(),
            503 => "ServiceUnavailable".to_owned(),
            504 => "GatewayTimeout".to_owned(),
            505 => "HTTPVersionNotSupported".to_owned(),
            506 => "VariantAlsoNegotiates".to_owned(),
            507 => "InsufficientStorage".to_owned(),
            508 => "LoopDetected".to_owned(),
            510 => "NotExtended".to_owned(),
            511 => "NetworkAuthenticationRequired".to_owned(),
            _ => "Unknown Error".to_owned(),
        }
    }

    /// Total color lookup; depends on `code` only through its family
    /// `code / 100`.
    pub fn color(&self, code: u16) -> (r: String)
        ensures
            r@ == color_of(code / 100),
    {
        match code / 100 {
            4 => "#ff9900ff".to_owned(),
            5 => "#ff0000bb".to_owned(),
            _ => "#ffffff".to_owned(),
        }
    }

    /// Total suggestion lookup: the authored list in its exact order, or an
    /// empty list for a code without an entry.
    pub fn suggestions(&self, code: u16) -> (r: Vec<String>)
        ensures
            views_of(r@) == suggestions_of(code),
    {
        match code {
            400 => {
                let mut v: Vec<String> = Vec::new();
                v.push("Check the request syntax".to_owned());
                v.push("Verify the request parameters".to_owned());
                v.push("Ensure the URL is correct".to_owned());
                proof {
                    assert(views_of(v@) =~= suggestions_of(code));
                }
                v
            },
            401 => {
                let mut v: Vec<String> = Vec::new();
                v.push("Check the authentication credentials".to_owned());
                v.push("Login again".to_owned());
                v.push("Contact the website administrator".to_owned());
                proof {
                    assert(views_of(v@) =~= suggestions_of(code));
                }
                v
            },
            403 => {
                let mut v: Vec<String> = Vec::new();
                v.push("Check the URL for errors".to_owned());
                v.push("Request access from the administrator".to_owned());
                v.push("Ensure you have the necessary permissions".to_owned());
                proof {
                    assert(views_of(v@) =~= suggestions_of(code));
                }
                v
            },
            404 => {
                let mut v: Vec<String> = Vec::new();
                v.push("Check the URL".to_owned());
                v.push("Reload the page".to_owned());
                v.push("Clear the browser cache".to_owned());
                v.push("Try using another browser".to_owned());
                v.push("Contact customer support".to_owned());
                proof {
                    assert(views_of(v@) =~= suggestions_of(code));
                }
                v
            },
            405 => {
                let mut v: Vec<String> = Vec::new();
                v.push("Check the request method (GET, POST, etc.)".to_owned());
                v.push("Refer to the website's API documentation".to_owned());
                v.push("Ensure the method is supported".to_owned());
                proof {
                    assert(views_of(v@) =~= suggestions_of(code));
                }
                v
            },
            406 => {
                let mut v: Vec<String> = Vec::new();
                v.push("Check the requested media type.".to_owned());
                v.push("Ensure server supports the requested format.".to_owned());
                proof {
                    assert(views_of(v@) =~= suggestions_of(code));
                }
                v
            },
            407 => {
                let mut v: Vec<String> = Vec::new();
                v.push("Verify proxy authentication.".to_owned());
                v.push("Contact network administrator for proxy details.".to_owned());
                proof {
                    assert(views_of(v@) =~= suggestions_of(code));
                }
                v
            },
            408 => {
                let mut v: Vec<String> = Vec::new();
                v.push("Check your internet connection".to_owned());
                v.push("Ensure the server is not overloaded".to_owned());
                v.push("Retry the request after a moment".to_owned());
                proof {
                    assert(views_of(v@) =~= suggestions_of(code));
                }
                v
            },
            409 => {
                let mut v: Vec<String> = Vec::new();
                v.push("Resolve conflicting resources.".to_owned());
                v.push("Ensure request data is consistent.".to_owned());
                proof {
                    assert(views_of(v@) =~= suggestions_of(code));
                }
                v
            },
            410 => {
                let mut v: Vec<String> = Vec::new();
                v.push("This resource is no longer available.".to_owned());
                v.push("Contact the website administrator for information.".to_owned());
                proof {
                    assert(views_of(v@) =~= suggestions_of(code));
                }
                v
            },
            411 => {
                let mut v: Vec<String> = Vec::new();
                v.push("Set 'Content-Length' header in request.".to_owned());
                proof {
                    assert(views_of(v@) =~= suggestions_of(code));
                }
                v
            },
            412 => {
                let mut v: Vec<String> = Vec::new();
                v.push("Verify request preconditions.".to_owned());
                v.push("Adjust precondition headers.".to_owned());
                proof {
                    assert(views_of(v@) =~= suggestions_of(code));
                }
                v
            },
            413 => {
                let mut v: Vec<String> = Vec::new();
                v.push("Reduce the request entity size.".to_owned());
                v.push("Contact administrator for size limits.".to_owned());
                proof {
                    assert(views_of(v@) =~= suggestions_of(code));
                }
                v
            },
            414 => {
                let mut v: Vec<String> = Vec::new();
                v.push("Simplify the URL length.".to_owned());
                v.push("Use a shorter URL structure.".to_owned());
                proof {
                    assert(views_of(v@) =~= suggestions_of(code));
                }
                v
            },
            415 => {
                let mut v: Vec<String> = Vec::new();
                v.push("Check the media type in request.".to_owned());
                v.push("Ensure server supports media type.".to_owned());
                proof {
                    assert(views_of(v@) =~= suggestions_of(code));
                }
                v
            },
            416 => {
                let mut v: Vec<String> = Vec::new();
                v.push("Check requested range headers.".to_owned());
                proof {
                    assert(views_of(v@) =~= suggestions_of(code));
                }
                v
            },
            417 => {
                let mut v: Vec<String> = Vec::new();
                v.push("Check 'Expect' request header.".to_owned());
                proof {
                    assert(views_of(v@) =~= suggestions_of(code));
                }
                v
            },
            418 => {
                let mut v: Vec<String> = Vec::new();
                v.push("I'm a teapot, not a coffee machine.".to_owned());
                proof {
                    assert(views_of(v@) =~= suggestions_of(code));
                }
                v
            },
            422 => {
                let mut v: Vec<String> = Vec::new();
                v.push("Check request syntax and data.".to_owned());
                proof {
                    assert(views_of(v@) =~= suggestions_of(code));
                }
                v
            },
            429 => {
                let mut v: Vec<String> = Vec::new();
                v.push("Reduce the frequency of requests.".to_owned());
                v.push("Wait before sending more requests.".to_owned());
                proof {
                    assert(views_of(v@) =~= suggestions_of(code));
                }
                v
            },
            431 => {
                let mut v: Vec<String> = Vec::new();
                v.push("Reduce header data size.".to_owned());
                proof {
                    assert(views_of(v@) =~= suggestions_of(code));
                }
                v
            },
            500 => {
                let mut v: Vec<String> = Vec::new();
                v.push("Wait a few moments and retry the request".to_owned());
                v.push("Check the website's social media for updates".to_owned());
                v.push("Contact customer support".to_owned());
                proof {
                    assert(views_of(v@) =~= suggestions_of(code));
                }
                v
            },
            501 => {
                let mut v: Vec<String> = Vec::new();
                v.push("Verify the request method is correct".to_owned());
                v.push("Check if the feature is implemented".to_owned());
                v.push("Contact the website administrator".to_owned());
                proof {
                    assert(views_of(v@) =~= suggestions_of(code));
                }
                v
            },
            502 => {
                let mut v: Vec<String> = Vec::new();
                v.push("Check your internet connection".to_owned());
                v.push("Wait a few moments and retry the request".to_owned());
                v.push("Contact the website if the issue persists".to_owned());
                proof {
                    assert(views_of(v@) =~= suggestions_of(code));
                }
                v
            },
            503 => {
                let mut v: Vec<String> = Vec::new();
                v.push("Check if the website is under maintenance".to_owned());
                v.push("Wait and retry later".to_owned());
                v.push("Contact the website for more information".to_owned());
                proof {
                    assert(views_of(v@) =~= suggestions_of(code));
                }
                v
            },
            504 => {
                let mut v: Vec<String> = Vec::new();
                v.push("Check your internet connection".to_owned());
                v.push("Ensure the server is reachable".to_owned());
                v.push("Retry the request after a moment".to_owned());
                proof {
                    assert(views_of(v@) =~= suggestions_of(code));
                }
                v
            },
            505 => {
                let mut v: Vec<String> = Vec::new();
                v.push("Verify the HTTP version used.".to_owned());
                v.push("Contact administrator to check version support.".to_owned());
                proof {
                    assert(views_of(v@) =~= suggestions_of(code));
                }
                v
            },
            511 => {
                let mut v: Vec<String> = Vec::new();
                v.push("Authenticate to access network.".to_owned());
                proof {
                    assert(views_of(v@) =~= suggestions_of(code));
                }
                v
            },
            _ => {
                let v: Vec<String> = Vec::new();
                proof {
                    assert(views_of(v@) =~= suggestions_of(code));
                }
                v
            },
        }
    }
}

/// Suggestion lookup is deterministic: any two results for one code hold
/// the same strings in the same authored order.
pub proof fn lemma_suggestions_deterministic(code: u16, r1: Seq<String>, r2: Seq<String>)
    requires
        views_of(r1) == suggestions_of(code),
        views_of(r2) == suggestions_of(code),
    ensures
        views_of(r1) == views_of(r2),
{
}

/// The color of a status code depends only on its family: two codes with the
/// same leading digit always resolve to the same color.
pub proof fn lemma_color_by_family(a: u16, b: u16)
    requires
        a / 100 == b / 100,
    ensures
        color_of(a / 100) == color_of(b / 100),
{
}

} // verus!
