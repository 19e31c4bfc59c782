//! The configuration records that the command line hands to the core.
use vstd::prelude::*;

verus! {

/// The parsed command line.
pub struct BoreArgs {
    pub command: Command,
}

/// The two ways to run.
pub enum Command {
    /// Starts a local proxy to the remote server.
    Local(LocalCommand),
    /// Runs the remote proxy server.
    Server(ServerCommand),
}

/// Configuration of the client side.
pub struct LocalCommand {
    /// The local port to forward to.
    pub local_port: u16,
    /// The address of the remote server.
    pub to: String,
    /// The public port to ask for; `0` lets the server choose.
    pub port: u16,
}

/// Configuration of the server side.
pub struct ServerCommand {
    /// Minimum TCP port number that clients may ask for.
    pub min_port: u16,
}

impl LocalCommand {
    /// A client configuration that lets the server choose the public port.
    pub fn new(local_port: u16, to: String) -> (c: LocalCommand)
        ensures
            c.local_port == local_port,
            c.to@ == to@,
            c.port == 0,
    {
        LocalCommand { local_port, to, port: 0 }
    }
}

impl Default for ServerCommand {
    fn default() -> (c: ServerCommand)
        ensures
            c.min_port == 1024,
    {
        ServerCommand { min_port: 1024 }
    }
}

} // verus!
