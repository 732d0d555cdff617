//! Bind configuration for the server: an address and a port.

use vstd::prelude::*;

verus! {

/// Where the server listens. Built by the embedding program (for instance
/// from environment variables) and handed to `Server::new`.
#[derive(Debug, Clone)]
pub struct Config {
    pub ip: String,
    pub port: u16,
}

impl Config {
    /// A configuration for the given address and port.
    pub fn new(ip: String, port: u16) -> (c: Config)
        ensures
            c.ip@ == ip@,
            c.port == port,
    {
        Config { ip, port }
    }
}

} // verus!
