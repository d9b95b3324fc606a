//! Process configuration: where to bind, how many workers, and where the
//! static content root lies.

use vstd::prelude::*;

verus! {

/// The fixed server configuration.
#[derive(Clone)]
pub struct AppConfig {
    pub server_bind: String,
    pub server_backlog: u32,
    pub server_workers: usize,
    pub data_path: String,
}

impl AppConfig {
    /// The default deployment configuration.
    pub fn new() -> (r: AppConfig)
        ensures
            r.server_bind@ == "0.0.0.0:83"@,
            r.server_backlog == 512,
            r.server_workers == 16,
            r.data_path@ == "data"@,
    {
        AppConfig {
            server_bind: "0.0.0.0:83".to_owned(),
            server_backlog: 512,
            server_workers: 16,
            data_path: "data".to_owned(),
        }
    }
}

} // verus!
