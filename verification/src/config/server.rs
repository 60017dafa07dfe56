//! Listener settings.

use vstd::prelude::*;

verus! {

/// The bind address used when `server.host` is not configured.
pub open spec fn default_host_text() -> Seq<char> {
    "127.0.0.1"@
}

/// The bind port used when `server.port` is not configured.
pub open spec fn default_port_number() -> u16 {
    8080
}

/// Where the proxy binds its listener.
#[derive(Debug, Clone)]
pub struct ServerConfig {
    host: String,
    port: u16,
}

/// What a [`ServerConfig`] says: the bind address and port.
pub struct ServerConfigView {
    pub host: Seq<char>,
    pub port: u16,
}

impl View for ServerConfig {
    type V = ServerConfigView;

    closed spec fn view(&self) -> ServerConfigView {
        ServerConfigView { host: self.host@, port: self.port }
    }
}

impl ServerConfig {
    /// Binds `host` and `port`.
    pub fn new(host: String, port: u16) -> (config: ServerConfig)
        ensures
            config@ == (ServerConfigView { host: host@, port }),
    {
        ServerConfig { host, port }
    }

    /// `127.0.0.1`.
    pub fn default_host() -> (host: String)
        ensures
            host@ == default_host_text(),
    {
        String::from_str("127.0.0.1")
    }

    /// `8080`.
    pub fn default_port() -> (port: u16)
        ensures
            port == default_port_number(),
    {
        8080
    }

    /// Bind address. Containers usually want `0.0.0.0`.
    pub fn host(&self) -> (host: &String)
        ensures
            host@ == self@.host,
    {
        &self.host
    }

    /// Bind port.
    pub fn port(&self) -> (port: u16)
        ensures
            port == self@.port,
    {
        self.port
    }
}

impl Default for ServerConfig {
    /// `127.0.0.1:8080`.
    fn default() -> (config: ServerConfig)
        ensures
            config@ == (ServerConfigView { host: default_host_text(), port: default_port_number() }),
    {
        ServerConfig { host: ServerConfig::default_host(), port: ServerConfig::default_port() }
    }
}

} // verus!
