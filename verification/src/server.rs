//! The server's identity: the address it is to listen on.

use vstd::prelude::*;

use crate::config::Config;
use crate::text::dec_str;
use crate::text::u16_to_string;

verus! {

/// A server bound to one address. The embedding program opens the listening
/// socket, accepts connections and hands their bytes to the library.
pub struct Server {
    address: String,
}

impl Server {
    /// The address this server listens on, as characters.
    pub closed spec fn spec_address(&self) -> Seq<char> {
        self.address@
    }

    /// A server for the configured address: `ip`, a colon, and the port in
    /// decimal.
    pub fn new(config: Config) -> (s: Server)
        ensures
            s.spec_address() == config.ip@ + ":"@ + dec_str(config.port as nat),
    {
        let port = u16_to_string(config.port);
        let address = config.ip.concat(":").concat(port.as_str());
        Server { address }
    }

    /// The address this server listens on.
    pub fn address(&self) -> (r: &String)
        ensures
            r@ == self.spec_address(),
    {
        &self.address
    }
}

} // verus!
