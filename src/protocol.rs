//! The messages exchanged on a control connection.
use vstd::prelude::*;

verus! {

/// The server's well-known control port.
pub const CONTROL_PORT: u16 = 7045;

/// A message from the client to the server.
pub enum ClientMessage {
    /// Asks for a public port; `0` lets the server choose one.
    Hello(u16),
    /// Declares this connection the answer to the offer with this id,
    /// to be spliced with the pending public peer.
    Accept(u128),
}

/// A message from the server to the client.
pub enum ServerMessage {
    /// Confirms the public port that the session listens on.
    Hello(u16),
    /// Liveness probe.
    HeartBeat,
    /// Offers the pending inbound connection with this id.
    Connection(u128),
    /// A terminal error; the server closes the session after it.
    Error(String),
}

} // verus!
