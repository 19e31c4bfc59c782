//! The table of pending inbound connections, shared by all control sessions.
//!
//! Each entry maps a connection id to the public peer's stream that waits
//! for the client to dial back. An entry leaves the table exactly once:
//! either the client's `Accept` takes it, or the sweeper discards it.
use dashmap::DashMap;
use tokio::net::TcpStream;
use vstd::prelude::*;

verus! {

#[verifier::external_type_specification]
#[verifier::external_body]
#[verifier::reject_recursive_types(K)]
#[verifier::reject_recursive_types(V)]
#[verifier::reject_recursive_types(S)]
pub struct ExDashMap<K, V, S>(DashMap<K, V, S>);

#[verifier::external_type_specification]
#[verifier::external_body]
pub struct ExTcpStream(TcpStream);

/// The ids that a map of pending streams holds.
pub uninterp spec fn pending_ids(m: DashMap<u128, TcpStream>) -> Set<u128>;

/// Relies on `DashMap::new`: a new map holds no entry.
#[verifier::external_body]
fn map_new() -> (m: DashMap<u128, TcpStream>)
    ensures
        pending_ids(m) == Set::<u128>::empty(),
{
    DashMap::new()
}

/// Relies on `DashMap::insert`: the key is present afterwards, the other
/// keys are untouched, and the displaced value, if any, is returned.
#[verifier::external_body]
fn map_insert(m: &mut DashMap<u128, TcpStream>, id: u128, s: TcpStream) -> (r: Option<TcpStream>)
    ensures
        pending_ids(*final(m)) == pending_ids(*old(m)).insert(id),
        r.is_some() == pending_ids(*old(m)).contains(id),
{
    m.insert(id, s)
}

/// Relies on `DashMap::remove`: the entry is taken out and handed back
/// with its key, or `None` comes back when the key is absent.
#[verifier::external_body]
fn map_remove(m: &mut DashMap<u128, TcpStream>, id: u128) -> (r: Option<(u128, TcpStream)>)
    ensures
        pending_ids(*final(m)) == pending_ids(*old(m)).remove(id),
        r.is_some() == pending_ids(*old(m)).contains(id),
        r.is_some() ==> r.unwrap().0 == id,
{
    m.remove(&id)
}

/// Relies on `DashMap::contains_key`: whether the key is present.
#[verifier::external_body]
fn map_contains(m: &DashMap<u128, TcpStream>, id: u128) -> (r: bool)
    ensures
        r == pending_ids(*m).contains(id),
{
    m.contains_key(&id)
}

/// Pending inbound streams keyed by connection id.
pub struct Registry {
    conns: DashMap<u128, TcpStream>,
}

impl Registry {
    /// The ids of the entries now pending.
    pub closed spec fn ids(&self) -> Set<u128> {
        pending_ids(self.conns)
    }

    /// An empty registry.
    pub fn new() -> (r: Registry)
        ensures
            r.ids() == Set::<u128>::empty(),
    {
        Registry { conns: map_new() }
    }

    /// Files `stream` under `id`. Returns `true` when the id was new; a
    /// stream already filed under the same id is dropped.
    pub fn insert(&mut self, id: u128, stream: TcpStream) -> (fresh: bool)
        ensures
            final(self).ids() == old(self).ids().insert(id),
            fresh == !old(self).ids().contains(id),
    {
        let displaced = map_insert(&mut self.conns, id, stream);
        displaced.is_none()
    }

    /// Takes the entry for `id` out of the registry, handing over its stream.
    /// This is what an `Accept(id)` does; it finds nothing once the entry
    /// has been taken or swept.
    pub fn take(&mut self, id: u128) -> (r: Option<TcpStream>)
        ensures
            final(self).ids() == old(self).ids().remove(id),
            r.is_some() == old(self).ids().contains(id),
    {
        match map_remove(&mut self.conns, id) {
            Some((_, stream)) => Some(stream),
            None => None,
        }
    }

    /// Discards the entry for `id`, if it is still pending: the sweeper's
    /// removal of a stale offer. Returns whether an entry was discarded.
    pub fn expire(&mut self, id: u128) -> (removed: bool)
        ensures
            final(self).ids() == old(self).ids().remove(id),
            removed == old(self).ids().contains(id),
    {
        let taken = map_remove(&mut self.conns, id);
        taken.is_some()
    }

    /// Whether an entry for `id` is pending.
    pub fn contains(&self, id: u128) -> (r: bool)
        ensures
            r == self.ids().contains(id),
    {
        map_contains(&self.conns, id)
    }
}

} // verus!
