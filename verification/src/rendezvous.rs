//! The pending rendezvous: the TCP connections that the front has accepted
//! and that wait for the data channel the back opens for them.
//!
//! An entry is made when a connection is accepted. It leaves when the data
//! channel with its identifier arrives and claims it, or when the command
//! for it cannot be dispatched. An identifier is pending at most once.

use crate::id::ConnectionId;
use std::collections::HashMap;
use vstd::prelude::*;

verus! {

/// The connections waiting for their data channel, each with the pipe `P`
/// that was built for it.
pub struct PendingRendezvous<P> {
    entries: HashMap<u128, P>,
}

impl<P> View for PendingRendezvous<P> {
    type V = Map<u128, P>;

    /// The pipes by the value of their connection's identifier.
    closed spec fn view(&self) -> Map<u128, P> {
        self.entries@
    }
}

impl<P> PendingRendezvous<P> {
    /// A registry with nothing pending.
    pub fn new() -> (pending: Self)
        ensures
            pending@ == Map::<u128, P>::empty(),
    {
        PendingRendezvous { entries: HashMap::new() }
    }

    /// The number of pending connections.
    pub fn len(&self) -> (n: usize)
        ensures
            n == self@.len(),
            self@.dom().finite(),
    {
        broadcast use vstd::std_specs::hash::group_hash_axioms;

        self.entries.len()
    }

    /// Whether nothing is pending.
    pub fn is_empty(&self) -> (b: bool)
        ensures
            b == (self@.len() == 0),
            self@.dom().finite(),
    {
        self.len() == 0
    }

    /// Whether a connection with this identifier is pending.
    pub fn contains(&self, id: ConnectionId) -> (b: bool)
        ensures
            b == self@.contains_key(id@),
    {
        broadcast use vstd::std_specs::hash::group_hash_axioms;

        self.entries.contains_key(&id.value)
    }

    /// Makes the connection `id` pending with its pipe. Should the
    /// identifier be pending already, the new pipe takes the place of the
    /// old one, which is returned: its connection can no longer be paired.
    pub fn register(&mut self, id: ConnectionId, pipe: P) -> (displaced: Option<P>)
        ensures
            final(self)@ == old(self)@.insert(id@, pipe),
            displaced == if old(self)@.contains_key(id@) {
                Some(old(self)@[id@])
            } else {
                None
            },
    {
        broadcast use vstd::std_specs::hash::group_hash_axioms;

        self.entries.insert(id.value, pipe)
    }

    /// Claims the pending connection `id` for its data channel: removes the
    /// entry and returns its pipe. Nothing changes if no such connection is
    /// pending.
    pub fn claim(&mut self, id: ConnectionId) -> (pipe: Option<P>)
        ensures
            final(self)@ == old(self)@.remove(id@),
            pipe == if old(self)@.contains_key(id@) {
                Some(old(self)@[id@])
            } else {
                None
            },
    {
        broadcast use vstd::std_specs::hash::group_hash_axioms;

        self.entries.remove(&id.value)
    }

    /// Gives the pending connection `id` up, as when its command cannot be
    /// dispatched: removes the entry and says whether there was one.
    pub fn discard(&mut self, id: ConnectionId) -> (was_pending: bool)
        ensures
            final(self)@ == old(self)@.remove(id@),
            was_pending == old(self)@.contains_key(id@),
    {
        self.claim(id).is_some()
    }
}

} // verus!
