//! The listener's address.
//!
//! One [`Server`] per generation of the runtime; binding and serving are the binary's.

use vstd::prelude::*;

verus! {

/// One generation of the listener, bound to `server.host` and `server.port`.
///
/// A reload constructs a new one, so the address is fixed for the life of a listener.
pub struct Server {
    host: String,
    port: u16,
}

impl Server {
    /// The listener for `host` and `port`.
    pub fn new(host: String, port: u16) -> (server: Server)
        ensures
            server.host_view() == host@,
            server.port_number() == port,
    {
        Server { host, port }
    }

    /// The bind address.
    pub closed spec fn host_view(&self) -> Seq<char> {
        self.host@
    }

    /// The bind port.
    pub closed spec fn port_number(&self) -> u16 {
        self.port
    }

    /// The bind address.
    pub fn host(&self) -> (host: &str)
        ensures
            host@ == self.host_view(),
    {
        self.host.as_str()
    }

    /// The bind port.
    pub fn port(&self) -> (port: u16)
        ensures
            port == self.port_number(),
    {
        self.port
    }
}

} // verus!
