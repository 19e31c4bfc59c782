//! The server's shared state: its port policy and the registry of pending
//! inbound connections.
use crate::registry::Registry;
use crate::session::{ControlSession, Event};
use tokio::net::TcpStream;
use vstd::prelude::*;

verus! {

/// The minimum public port that a server allows by default.
pub const DEFAULT_MIN_PORT: u16 = 1024;

/// How long a pending connection waits for the client, in milliseconds.
pub const PENDING_TIMEOUT_MS: u64 = 10000;

/// How long one poll of the public listener waits, in milliseconds.
pub const POLL_INTERVAL_MS: u64 = 500;

/// Relies on `uuid::Uuid::new_v4` (and `as_u128`): a random id. Nothing is
/// promised of its value.
#[verifier::external_body]
fn fresh_id() -> (id: u128) {
    uuid::Uuid::new_v4().as_u128()
}

/// State of the server.
pub struct Server {
    /// The minimum TCP port that can be forwarded.
    pub min_port: u16,
    /// Pending inbound connections, keyed by id.
    pub conns: Registry,
}

impl Server {
    /// The ids of the connections now pending.
    pub closed spec fn pending(&self) -> Set<u128> {
        self.conns.ids()
    }

    /// A server with no pending connection.
    pub fn new(min_port: u16) -> (r: Server)
        ensures
            r.min_port == min_port,
            r.pending() == Set::<u128>::empty(),
    {
        Server { min_port, conns: Registry::new() }
    }

    /// A new control session under this server's port policy.
    pub fn session(&self) -> (s: ControlSession)
        ensures
            s.wf(),
            s.min_port == self.min_port,
            s.phase is AwaitHello,
            s.sent@.len() == 0,
            !s.bound@,
    {
        ControlSession::new(self.min_port)
    }

    /// Files an inbound public connection under a fresh id and returns the
    /// event that tells the session to offer it.
    pub fn register(&mut self, stream: TcpStream) -> (ev: Event)
        ensures
            final(self).min_port == old(self).min_port,
            ev matches Event::Incoming(id) && final(self).pending() == old(self).pending().insert(id),
    {
        let id = fresh_id();
        let _fresh = self.conns.insert(id, stream);
        Event::Incoming(id)
    }

    /// Takes the pending connection with `id` for an `Accept(id)`; `None`
    /// when it was taken or swept before.
    pub fn take(&mut self, id: u128) -> (r: Option<TcpStream>)
        ensures
            final(self).min_port == old(self).min_port,
            final(self).pending() == old(self).pending().remove(id),
            r.is_some() == old(self).pending().contains(id),
    {
        self.conns.take(id)
    }

    /// The sweeper: discards the connection with `id` if it still waits.
    /// Returns whether it did.
    pub fn expire(&mut self, id: u128) -> (removed: bool)
        ensures
            final(self).min_port == old(self).min_port,
            final(self).pending() == old(self).pending().remove(id),
            removed == old(self).pending().contains(id),
    {
        self.conns.expire(id)
    }

    /// Whether the connection with `id` still waits.
    pub fn is_pending(&self, id: u128) -> (r: bool)
        ensures
            r == self.pending().contains(id),
    {
        self.conns.contains(id)
    }
}

impl Default for Server {
    fn default() -> (r: Server)
        ensures
            r.min_port == DEFAULT_MIN_PORT,
            r.pending() == Set::<u128>::empty(),
    {
        Server::new(DEFAULT_MIN_PORT)
    }
}

/// Once an acceptance or the sweeper has removed the entry for `id`, any
/// later acceptance or sweep of `id` finds nothing: each pending stream is
/// handed over at most once.
pub proof fn lemma_removed_at_most_once(before: Server, after: Server, id: u128)
    requires
        after.pending() == before.pending().remove(id),
    ensures
        !after.pending().contains(id),
{
}

/// An id is pending only from its registration until its first removal:
/// removing another id leaves it pending.
pub proof fn lemma_other_ids_kept(before: Server, after: Server, id: u128, other: u128)
    requires
        after.pending() == before.pending().remove(other),
        id != other,
    ensures
        after.pending().contains(id) == before.pending().contains(id),
{
}

} // verus!
