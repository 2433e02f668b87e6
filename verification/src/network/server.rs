//! The listening side.

use crate::text::{decimal, decimal_string};
use vstd::prelude::*;
use vstd::string::StringExecFns;

verus! {

/// An address and a port to listen on.
pub struct Server {
    address: String,
    pub port: u16,
}

impl Server {
    /// The address the server listens on.
    pub closed spec fn address(&self) -> Seq<char> {
        self.address@
    }

    /// The port the server listens on.
    pub closed spec fn listens_on(&self) -> u16 {
        self.port
    }

    /// A server for `address` and `port`.
    pub fn new(address: &str, port: u16) -> (server: Self)
        ensures
            server.address() == address@,
            server.listens_on() == port,
    {
        Server { address: address.to_owned(), port }
    }

    /// The line announcing that the server starts.
    pub fn start(&self) -> (line: String)
        ensures
            line@ == "Server starting on "@ + self.address() + ":"@ + decimal(
                self.listens_on() as nat,
            ),
    {
        let mut line = "Server starting on ".to_owned();
        line.append(self.address.as_str());
        line.append(":");
        line.append(decimal_string(self.port as u64).as_str());
        line
    }

    /// Whether the address is non-empty.
    pub fn validate_address(&self) -> (b: bool)
        ensures
            b == (self.address().len() > 0),
    {
        !self.address.as_str().is_empty()
    }
}

/// The protocols a server may speak.
pub enum Protocol {
    Http,
    Https,
    WebSocket,
}

} // verus!
