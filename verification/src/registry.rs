//! The connection registry: the one resource shared across sessions. It
//! maps a session identity to a message-delivery handle; an entry is added
//! exactly at session start and removed exactly at session end, so there is
//! at most one live entry per identity. The surrounding server guards one
//! registry with a single lock and keeps every critical section to one of
//! these bounded operations.

use vstd::prelude::*;
use std::collections::HashMap;

verus! {

broadcast use vstd::std_specs::hash::group_hash_axioms;

/// Relies on `uuid::Uuid::new_v4`: a freshly drawn random identifier,
/// carried as its 128-bit value. Nothing is promised of the draw.
#[verifier::external_body]
fn fresh_session_id() -> u128 {
    uuid::Uuid::new_v4().as_u128()
}

/// The shared table of active sessions, keyed by session identity.
#[verifier::reject_recursive_types(H)]
pub struct Registry<H> {
    table: HashMap<u128, H>,
}

impl<H> View for Registry<H> {
    type V = Map<u128, H>;

    closed spec fn view(&self) -> Map<u128, H> {
        self.table@
    }
}

impl<H> Registry<H> {
    /// An empty registry, made once for the whole server.
    pub fn new() -> (r: Self)
        ensures
            r@ == Map::<u128, H>::empty(),
    {
        Registry { table: HashMap::new() }
    }

    /// Adds the entry for a session identity, replacing any stale one.
    pub fn register(&mut self, id: u128, handle: H)
        ensures
            final(self)@ == old(self)@.insert(id, handle),
    {
        self.table.insert(id, handle);
    }

    /// Draws a fresh identity, registers the handle under it, and returns
    /// the identity for the session to keep.
    pub fn open_session(&mut self, handle: H) -> (id: u128)
        ensures
            final(self)@ == old(self)@.insert(id, handle),
    {
        let id = fresh_session_id();
        self.table.insert(id, handle);
        id
    }

    /// Removes a session's entry; every exit path of a session must come
    /// through here, or an out-of-band sender would reach a dead session.
    pub fn deregister(&mut self, id: u128)
        ensures
            final(self)@ == old(self)@.remove(id),
    {
        self.table.remove(&id);
    }

    /// The delivery handle of one session, for out-of-band addressing.
    pub fn lookup(&self, id: u128) -> (r: Option<&H>)
        ensures
            r is Some <==> self@.contains_key(id),
            r matches Some(h) ==> *h == self@[id],
    {
        self.table.get(&id)
    }

    /// Whether a session is currently registered.
    pub fn contains(&self, id: u128) -> (b: bool)
        ensures
            b == self@.contains_key(id),
    {
        self.table.contains_key(&id)
    }

    /// How many sessions are live.
    pub fn len(&self) -> (n: usize)
        ensures
            n == self@.len(),
    {
        self.table.len()
    }
}

} // verus!
