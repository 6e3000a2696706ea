//! Where the service listens.

use vstd::prelude::*;

verus! {

/// The address that stands for all interfaces of the machine.
pub const DEFAULT_HOST: &'static str = "0.0.0.0";

/// The port on which the service listens unless told otherwise.
pub const DEFAULT_PORT: u16 = 3788;

/// The address and the port that the server binds to.
#[derive(Debug, Clone, PartialEq, Eq)]
pub struct ServerConfig {
    pub host: String,
    pub port: u16,
}

impl Default for ServerConfig {
    /// All interfaces, port 3788.
    fn default() -> (config: ServerConfig)
        ensures
            config.host@ == DEFAULT_HOST@,
            config.port == DEFAULT_PORT,
    {
        ServerConfig { host: DEFAULT_HOST.to_owned(), port: DEFAULT_PORT }
    }
}

impl ServerConfig {
    /// The same address with another port.
    pub fn with_port(self, port: u16) -> (config: ServerConfig)
        ensures
            config.host@ == self.host@,
            config.port == port,
    {
        ServerConfig { host: self.host, port }
    }
}

} // verus!
