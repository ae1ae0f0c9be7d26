//! The configuration of the stand-alone HTTP service.

use vstd::prelude::*;

verus! {

/// Where the HTTP service listens.
#[derive(Debug)]
pub struct HttpConfig {
    pub listen_address: String,
    pub listen_port: u16,
}

/// The configuration of the service.
#[derive(Debug)]
pub struct AppConfig {
    pub http: HttpConfig,
}

} // verus!
