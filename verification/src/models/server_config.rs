use vstd::prelude::*;

use crate::decimal_text::{decimal_string, decimal_text};

verus! {

/// Run configuration for the server.
#[derive(Debug, Clone)]
pub struct ServerConfig {
    /// The address the server listens on, such as `0.0.0.0`.
    address: String,
    /// The port the server listens on, such as `3000`.
    port: u16,
}

impl ServerConfig {
    /// The address the server listens on.
    pub closed spec fn spec_address(&self) -> Seq<char> {
        self.address@
    }

    /// The port the server listens on.
    pub closed spec fn spec_port(&self) -> u16 {
        self.port
    }

    /// The text of an address and a port together.
    pub open spec fn spec_address_with_port(&self) -> Seq<char> {
        self.spec_address() + seq![':'] + decimal_text(self.spec_port() as nat)
    }

    /// A configuration with the given address and port.
    pub fn new(address: String, port: u16) -> (config: ServerConfig)
        ensures
            config.spec_address() == address@,
            config.spec_port() == port,
    {
        ServerConfig { address, port }
    }

    /// The address the server listens on.
    pub fn address(&self) -> (address: &String)
        ensures
            address@ == self.spec_address(),
    {
        &self.address
    }

    /// The port the server listens on.
    pub fn port(&self) -> (port: u16)
        ensures
            port == self.spec_port(),
    {
        self.port
    }

    /// Returns the server address and port as one text: the address, a
    /// colon, and the port in decimal.
    pub fn address_with_port(&self) -> (text: String)
        ensures
            text@ == self.spec_address_with_port(),
    {
        let mut text = self.address.clone();
        text.append(":");
        text.append(decimal_string(self.port as u64).as_str());
        proof {
            reveal_strlit(":");
            assert(":"@ =~= seq![':']);
        }
        text
    }
}

} // verus!
