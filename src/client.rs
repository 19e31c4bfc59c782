//! The decisions of the client's control loop, as a state machine: the
//! caller reads each server message, hands it in, and performs the action.
use crate::protocol::{ClientMessage, ServerMessage};
use vstd::prelude::*;

verus! {

/// The client's configuration.
pub struct Client {
    /// The private service's port on localhost.
    pub local_port: u16,
    /// The server's address.
    pub remote_host: String,
    /// The public port asked for; `0` lets the server choose.
    pub remote_port: u16,
}

/// Where the client's control loop stands.
#[derive(PartialEq, Eq, Structural)]
pub enum ClientPhase {
    /// `Hello` sent; waiting for the server's answer.
    AwaitHello,
    /// The public port is known; serving offers.
    Running,
    /// The control loop is over.
    Done,
}

/// Why the control loop failed.
pub enum ClientFailure {
    /// The server refused the session with this text.
    Refused(String),
    /// The server's first message was not `Hello` or `Error`.
    UnexpectedMessage,
    /// The server closed the connection before answering `Hello`.
    UnexpectedEof,
}

/// What the caller does next.
pub enum ClientAction {
    /// Report the public port; then read the next message.
    Announce(u16),
    /// Nothing; read the next message.
    Ignore,
    /// Start a data task for the offer with this id; then read the next
    /// message without waiting for it.
    Spawn(u128),
    /// End the loop cleanly, with the server's error text if it sent one.
    Finish(Option<String>),
    /// End the loop with a failure.
    Fail(ClientFailure),
}

impl Client {
    /// A client that forwards offers to `local_port`, asking `remote_host`
    /// for public port `remote_port`.
    pub fn new(local_port: u16, remote_host: String, remote_port: u16) -> (c: Client)
        ensures
            c.local_port == local_port,
            c.remote_host@ == remote_host@,
            c.remote_port == remote_port,
    {
        Client { local_port, remote_host, remote_port }
    }

    /// The first message of the control connection.
    pub fn hello(&self) -> (m: ClientMessage)
        ensures
            m == ClientMessage::Hello(self.remote_port),
    {
        ClientMessage::Hello(self.remote_port)
    }

    /// The first message of a data connection answering offer `id`.
    pub fn accept(id: u128) -> (m: ClientMessage)
        ensures
            m == ClientMessage::Accept(id),
    {
        ClientMessage::Accept(id)
    }
}

/// Moves the client's control loop on by one server message (`None`: end
/// of stream) and says what to do next.
pub fn client_step(phase: ClientPhase, msg: Option<ServerMessage>) -> (r: (ClientPhase, ClientAction))
    ensures
        phase is AwaitHello ==> match msg {
            Some(ServerMessage::Hello(p)) => r.0 == ClientPhase::Running && r.1 == ClientAction::Announce(p),
            Some(ServerMessage::Error(t)) => r.1 matches ClientAction::Fail(ClientFailure::Refused(u))
                && u@ == t@ && r.0 == ClientPhase::Done,
            Some(_) => r.0 == ClientPhase::Done && r.1 matches ClientAction::Fail(ClientFailure::UnexpectedMessage),
            None => r.0 == ClientPhase::Done && r.1 matches ClientAction::Fail(ClientFailure::UnexpectedEof),
        },
        phase is Running ==> match msg {
            Some(ServerMessage::HeartBeat) => r.0 == ClientPhase::Running && r.1 is Ignore,
            Some(ServerMessage::Connection(id)) => r.0 == ClientPhase::Running && r.1 == ClientAction::Spawn(id),
            Some(ServerMessage::Error(t)) => r.1 matches ClientAction::Finish(Some(u))
                && u@ == t@ && r.0 == ClientPhase::Done,
            Some(ServerMessage::Hello(_)) => r.0 == ClientPhase::Running && r.1 is Ignore,
            None => r.0 == ClientPhase::Done && r.1 matches ClientAction::Finish(None),
        },
        phase is Done ==> r.0 == ClientPhase::Done && r.1 matches ClientAction::Finish(None),
{
    match phase {
        ClientPhase::AwaitHello => match msg {
            Some(ServerMessage::Hello(p)) => (ClientPhase::Running, ClientAction::Announce(p)),
            Some(ServerMessage::Error(t)) => (ClientPhase::Done, ClientAction::Fail(ClientFailure::Refused(t))),
            Some(_) => (ClientPhase::Done, ClientAction::Fail(ClientFailure::UnexpectedMessage)),
            None => (ClientPhase::Done, ClientAction::Fail(ClientFailure::UnexpectedEof)),
        },
        ClientPhase::Running => match msg {
            Some(ServerMessage::Connection(id)) => (ClientPhase::Running, ClientAction::Spawn(id)),
            Some(ServerMessage::Error(t)) => (ClientPhase::Done, ClientAction::Finish(Some(t))),
            Some(_) => (ClientPhase::Running, ClientAction::Ignore),
            None => (ClientPhase::Done, ClientAction::Finish(None)),
        },
        ClientPhase::Done => (ClientPhase::Done, ClientAction::Finish(None)),
    }
}

} // verus!
