//! Core of a small static-content web server.
//!
//! Assets are loaded into an immutable in-memory store once at startup and
//! served by a router; any non-success status is turned into a diagnostic
//! error page driven by a catalog of status codes.  The HTTP transport,
//! filesystem walking and logging live outside this crate; everything here
//! works on plain values and is verified.

pub mod app_set;
pub mod assets;
pub mod err_page;
pub mod http;
pub mod init;
pub mod router;
pub mod status;
pub mod templates;
pub mod text;
