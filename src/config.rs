//! Values fixed once at start-up and shared read-only by every request.

use vstd::prelude::*;

verus! {

/// Read-only data cached at start-up; nothing is cached yet.
#[derive(Clone, Copy, Debug)]
pub struct Cache {}

impl Cache {
    pub fn new() -> (r: Cache) {
        Cache {}
    }
}

/// The plain-HTTP port that is redirected and the HTTPS port it goes to.
#[derive(Clone, Copy, Debug, PartialEq, Eq, Structural)]
pub struct Ports {
    pub http: u16,
    pub https: u16,
}

/// The HTTPS port used when none is configured.
pub const DEFAULT_HTTPS_PORT: u16 = 443;

/// The plain-HTTP port that is redirected.
pub const HTTP_PORT: u16 = 80;

impl Ports {
    pub fn new(http_port: u16, https_port: u16) -> (r: Ports)
        ensures
            r.http == http_port,
            r.https == https_port,
    {
        Ports { http: http_port, https: https_port }
    }

    /// The redirect ports for a configured HTTPS port, if one parsed.
    pub fn for_https(configured: Option<u16>) -> (r: Ports)
        ensures
            r.http == HTTP_PORT,
            r.https == match configured {
                Some(p) => p,
                None => DEFAULT_HTTPS_PORT,
            },
    {
        let https = match configured {
            Some(p) => p,
            None => DEFAULT_HTTPS_PORT,
        };
        Ports::new(HTTP_PORT, https)
    }
}

} // verus!
