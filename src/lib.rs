//! A TCP reverse tunnel: a server that allocates public ports and a client
//! that forwards the connections they receive to a private service.

pub mod args;
pub mod client;
pub mod frame;
pub mod protocol;
pub mod registry;
pub mod server;
pub mod session;
