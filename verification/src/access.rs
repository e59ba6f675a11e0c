//! Timestamped nodes and the guard that refreshes them.

use crate::clock::Now;
use std::ops::Deref;
use std::ops::DerefMut;
use std::time::Instant;
use vstd::prelude::*;

verus! {

/// What a [`Node`] holds, as contracts see it.
pub ghost struct NodeView<T> {
    /// The payload.
    pub value: T,
    /// The instant of construction, or the reading taken when the most
    /// recent guard was released.
    pub last_access: Instant,
}

impl<T> NodeView<T> {
    /// This node once a guard on it has been released at `reading`: the
    /// payload stays, the instant is replaced.
    pub open spec fn released(self, reading: Instant) -> Self {
        NodeView { value: self.value, last_access: reading }
    }

    /// This node once `value` has been stored in it: the payload is
    /// replaced, the instant stays.
    pub open spec fn holding(self, value: T) -> Self {
        NodeView { value, last_access: self.last_access }
    }
}

/// Wraps a value with the instant at which it was last accessed.
#[derive(Debug, PartialEq)]
pub struct Node<T> {
    value: T,
    last_access: Instant,
}

impl<T> View for Node<T> {
    type V = NodeView<T>;

    closed spec fn view(&self) -> NodeView<T> {
        NodeView { value: self.value, last_access: self.last_access }
    }
}

/// A smart pointer that updates an access time when dropped.
///
/// Wraps a mutable reference to a [`Node`], so at most one guard on a node is
/// alive at a time. While the guard lives it reads and writes the node's
/// value, and reports the access time the node had before the guard was
/// made. When the guard is dropped, the node's access time is set to the
/// reading that the time source gives at that moment.
pub struct Access<'a, T: 'a, N: Now + 'a = ()> {
    node: &'a mut Node<T>,
    now: &'a N,
}

impl<'a, T: 'a, N: Now + 'a> View for Access<'a, T, N> {
    type V = NodeView<T>;

    /// The node as it stands under the guard.
    closed spec fn view(&self) -> NodeView<T> {
        self.node@
    }
}

impl<'a, T: 'a, N: Now + 'a> Access<'a, T, N> {
    /// The borrow of the node that this guard holds. Its final value is the
    /// node that the owner sees once the guard is gone.
    pub closed spec fn borrowed(&self) -> &'a mut Node<T> {
        self.node
    }

    /// The time source that is read when this guard is dropped.
    pub closed spec fn source(&self) -> &'a N {
        self.now
    }

    /// The access time of the node as it was before this guard was made.
    /// Nothing done through the guard changes it.
    pub fn last_access(&self) -> (stamp: Instant)
        ensures
            stamp == self@.last_access,
    {
        self.node.last_access
    }

    /// Records `reading` as the instant at which this access ended.
    fn settle(&mut self, reading: Instant)
        ensures
            final(self)@ == old(self)@.released(reading),
            *final(final(self).borrowed()) == *final(old(self).borrowed()),
            final(self).source() == old(self).source(),
        opens_invariants none
        no_unwind
    {
        self.node.last_access = reading;
    }
}

impl<'a, T: 'a, N: Now + 'a> Deref for Access<'a, T, N> {
    type Target = T;

    fn deref(&self) -> (value: &T)
        ensures
            *value == self@.value,
    {
        &self.node.value
    }
}

impl<'a, T: 'a, N: Now + 'a> DerefMut for Access<'a, T, N> {
    fn deref_mut(&mut self) -> (value: &mut T)
        ensures
            *value == old(self)@.value,
            final(self)@ == old(self)@.holding(*final(value)),
            *final(final(self).borrowed()) == *final(old(self).borrowed()),
            final(self).source() == old(self).source(),
    {
        &mut self.node.value
    }
}

impl<'a, T: 'a, N: Now + 'a> Drop for Access<'a, T, N> {
    /// Releases the guard: reads the time source once and records the
    /// reading in the node, whatever instant the node showed before. The
    /// value is left as the guard's user left it.
    ///
    /// Which instant a source gives is not known before it is read, so the
    /// contract names the new access time by where it comes from: it is a
    /// result of `now` on the guard's source. Where a source's `now` says
    /// what it returns, that fixes the access time.
    fn drop(&mut self)
        ensures
            call_ensures(N::now, (old(self).source(),), final(self)@.last_access),
            final(self)@ == old(self)@.released(final(self)@.last_access),
            *final(final(self).borrowed()) == *final(old(self).borrowed()),
            final(self).source() == old(self).source(),
        opens_invariants none
        no_unwind
    {
        let reading: Instant = self.now.now();
        self.settle(reading);
    }
}

impl<T> Node<T> {
    /// Wraps `value`, last accessed at `last_access`.
    pub fn new(value: T, last_access: Instant) -> (node: Self)
        ensures
            node@ == (NodeView { value, last_access }),
    {
        Node { value, last_access }
    }

    /// Begins an access to the node. The clock is not read and the access
    /// time is not touched until the guard is dropped.
    pub fn access<'a, N: Now + 'a>(&'a mut self, now: &'a N) -> (guard: Access<'a, T, N>)
        ensures
            guard@ == old(self)@,
            guard.source() == now,
            *final(self) == *final(guard.borrowed()),
    {
        Access { now, node: self }
    }

    /// The instant at which the node was last accessed.
    pub fn last_access(&self) -> (stamp: Instant)
        ensures
            stamp == self@.last_access,
    {
        self.last_access
    }
}

impl<T> Deref for Node<T> {
    type Target = T;

    fn deref(&self) -> (value: &T)
        ensures
            *value == self@.value,
    {
        &self.value
    }
}

impl<T> DerefMut for Node<T> {
    /// Writes to the value directly: the access time is not touched.
    fn deref_mut(&mut self) -> (value: &mut T)
        ensures
            *value == old(self)@.value,
            final(self)@ == old(self)@.holding(*final(value)),
    {
        &mut self.value
    }
}

} // verus!
