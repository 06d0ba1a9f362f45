//! The registry of the handlers connected to a signal.
//!
//! The object that emits a signal owns the registry. Connecting a handler
//! yields a handle; the connection lasts until the handle is disconnected,
//! and disconnecting a handle that is not connected changes nothing.

use vstd::prelude::*;

verus! {

/// An opaque token for one connection of a handler to a signal.
#[derive(Clone, Copy, Debug, PartialEq, Eq, Structural)]
pub struct ConnectionHandle {
    id: u64,
}

/// Some entry of `entries` is the connection `handle`.
pub open spec fn connected<H>(entries: Seq<(ConnectionHandle, H)>, handle: ConnectionHandle) -> bool {
    exists|i: int| 0 <= i < entries.len() && (#[trigger] entries[i]).0 == handle
}

/// No two entries of `entries` have the same handle.
pub open spec fn distinct_handles<H>(entries: Seq<(ConnectionHandle, H)>) -> bool {
    forall|i: int, j: int|
        0 <= i < j < entries.len() ==> (#[trigger] entries[i]).0 != (#[trigger] entries[j]).0
}

/// The place of an entry of `entries` that is the connection `handle`.
pub open spec fn position<H>(entries: Seq<(ConnectionHandle, H)>, handle: ConnectionHandle) -> int {
    choose|i: int| 0 <= i < entries.len() && (#[trigger] entries[i]).0 == handle
}

/// `entries` without the connection `handle`: the entry at its place is
/// taken out and the others stay in their order. Where `handle` is not
/// connected, nothing changes.
pub open spec fn without<H>(
    entries: Seq<(ConnectionHandle, H)>,
    handle: ConnectionHandle,
) -> Seq<(ConnectionHandle, H)> {
    if connected(entries, handle) {
        entries.remove(position(entries, handle))
    } else {
        entries
    }
}

/// Disconnecting twice is disconnecting once: after the first time the
/// handle is not connected, and the second time takes nothing out.
pub proof fn lemma_disconnect_is_idempotent<H>(
    entries: Seq<(ConnectionHandle, H)>,
    handle: ConnectionHandle,
)
    requires
        distinct_handles(entries),
    ensures
        !connected(without(entries, handle), handle),
        without(without(entries, handle), handle) == without(entries, handle),
        distinct_handles(without(entries, handle)),
{
    if connected(entries, handle) {
        let at = position(entries, handle);
        let rest = entries.remove(at);
        assert forall|i: int| 0 <= i < rest.len() implies (#[trigger] rest[i]).0 != handle by {
            if i < at {
                assert(rest[i] == entries[i]);
            } else {
                assert(rest[i] == entries[i + 1]);
            }
        }
        assert forall|i: int, j: int| 0 <= i < j < rest.len() implies (#[trigger] rest[i]).0 != (
        #[trigger] rest[j]).0 by {
            let a = if i < at { i } else { i + 1 };
            let b = if j < at { j } else { j + 1 };
            assert(rest[i] == entries[a]);
            assert(rest[j] == entries[b]);
        }
    }
}

/// A connection lasts until its own handle is disconnected: disconnecting
/// another handle leaves it connected, with the same handler.
pub proof fn lemma_other_connections_stay<H>(
    entries: Seq<(ConnectionHandle, H)>,
    handle: ConnectionHandle,
    other: ConnectionHandle,
    place: int,
)
    requires
        0 <= place < entries.len(),
        entries[place].0 == handle,
        handle != other,
    ensures
        exists|i: int|
            0 <= i < without(entries, other).len() && #[trigger] without(entries, other)[i]
                == entries[place],
{
    let rest = without(entries, other);
    if connected(entries, other) {
        let at = position(entries, other);
        assert(entries[at].0 == other);
        assert(place != at);
        if place < at {
            assert(0 <= place < rest.len() && rest[place] == entries[place]);
        } else {
            assert(0 <= place - 1 < rest.len() && rest[place - 1] == entries[place]);
        }
    } else {
        assert(0 <= place < rest.len() && rest[place] == entries[place]);
    }
}

/// The handlers connected to one signal, in the order in which they were
/// connected.
pub struct SignalRegistry<H> {
    issued: u64,
    connections: Vec<(ConnectionHandle, H)>,
}

impl<H> SignalRegistry<H> {
    /// The registry is well formed: no handle is connected twice, and every
    /// connected handle is one that the registry gave out.
    pub closed spec fn wf(&self) -> bool {
        &&& distinct_handles(self.connections@)
        &&& forall|i: int|
            0 <= i < self.connections@.len() ==> (#[trigger] self.connections@[i]).0.id
                < self.issued
    }

    /// In a well-formed registry no two connections have the same handle.
    pub proof fn lemma_handles_distinct(&self)
        requires
            self.wf(),
        ensures
            distinct_handles(self.entries()),
    {
    }

    /// The connections, each with its handler, in the order in which they
    /// were made.
    pub closed spec fn entries(&self) -> Seq<(ConnectionHandle, H)> {
        self.connections@
    }

    /// The number of handles given out so far.
    pub closed spec fn issued(&self) -> nat {
        self.issued as nat
    }

    /// Makes a registry without connections.
    pub fn new() -> (registry: Self)
        ensures
            registry.wf(),
            registry.entries() == Seq::<(ConnectionHandle, H)>::empty(),
            registry.issued() == 0,
    {
        SignalRegistry { issued: 0, connections: Vec::new() }
    }

    /// The number of connections.
    pub fn len(&self) -> (count: usize)
        ensures
            count == self.entries().len(),
    {
        self.connections.len()
    }

    /// Connects `handler` and hands back the handle of the new connection,
    /// which no earlier connection has. Only a registry that has given out
    /// every handle there is connects nothing.
    pub fn connect(&mut self, handler: H) -> (handle: Option<ConnectionHandle>)
        requires
            old(self).wf(),
        ensures
            final(self).wf(),
            match handle {
                Some(h) => {
                    &&& !connected(old(self).entries(), h)
                    &&& connected(final(self).entries(), h)
                    &&& final(self).entries() == old(self).entries().push((h, handler))
                    &&& final(self).issued() == old(self).issued() + 1
                },
                None => {
                    &&& old(self).issued() == u64::MAX
                    &&& final(self).entries() == old(self).entries()
                    &&& final(self).issued() == old(self).issued()
                },
            },
    {
        if self.issued == u64::MAX {
            return None;
        }
        let handle = ConnectionHandle { id: self.issued };
        self.issued = self.issued + 1;
        self.connections.push((handle, handler));
        assert(self.connections@[self.connections@.len() - 1].0 == handle);
        Some(handle)
    }

    /// Tells whether `handle` is connected.
    pub fn is_connected(&self, handle: ConnectionHandle) -> (found: bool)
        ensures
            found == connected(self.entries(), handle),
    {
        self.find(handle).is_some()
    }

    /// The handler of the connection `handle`, if it is connected.
    pub fn handler(&self, handle: ConnectionHandle) -> (handler: Option<&H>)
        requires
            self.wf(),
        ensures
            handler is Some <==> connected(self.entries(), handle),
            handler is Some ==> *handler->0 == self.entries()[position(self.entries(), handle)].1,
    {
        match self.find(handle) {
            Some(at) => {
                assert(position(self.entries(), handle) == at) by {
                    let p = position(self.entries(), handle);
                    if p < at {
                    } else if at < p {
                    }
                }
                Some(&self.connections[at].1)
            },
            None => None,
        }
    }

    /// The connected handlers, in the order in which they were connected:
    /// those that an emission of the signal notifies.
    pub fn handlers(&self) -> (list: Vec<&H>)
        ensures
            list@.len() == self.entries().len(),
            forall|i: int| 0 <= i < list@.len() ==> *(#[trigger] list@[i]) == self.entries()[i].1,
    {
        let mut list: Vec<&H> = Vec::new();
        let count = self.connections.len();
        for i in 0..count
            invariant
                count == self.connections@.len(),
                list@.len() == i,
                forall|k: int| 0 <= k < i ==> *(#[trigger] list@[k]) == self.connections@[k].1,
        {
            list.push(&self.connections[i].1);
        }
        list
    }

    /// Disconnects `handle` and tells whether it was connected. A handle that
    /// is not connected, or not any more, leaves the registry as it is.
    pub fn disconnect(&mut self, handle: ConnectionHandle) -> (removed: bool)
        requires
            old(self).wf(),
        ensures
            final(self).wf(),
            removed == connected(old(self).entries(), handle),
            final(self).entries() == without(old(self).entries(), handle),
            final(self).issued() == old(self).issued(),
            !connected(final(self).entries(), handle),
    {
        proof {
            lemma_disconnect_is_idempotent(self.connections@, handle);
        }
        match self.find(handle) {
            Some(at) => {
                assert(position(self.connections@, handle) == at) by {
                    let p = position(self.connections@, handle);
                    if p < at {
                    } else if at < p {
                    }
                }
                let ghost before = self.connections@;
                self.connections.remove(at);
                assert forall|i: int| 0 <= i < self.connections@.len() implies (
                #[trigger] self.connections@[i]).0.id < self.issued by {
                    if i < at {
                        assert(self.connections@[i] == before[i]);
                    } else {
                        assert(self.connections@[i] == before[i + 1]);
                    }
                }
                true
            },
            None => false,
        }
    }

    /// Finds the place of the connection `handle`.
    fn find(&self, handle: ConnectionHandle) -> (place: Option<usize>)
        ensures
            place is Some <==> connected(self.connections@, handle),
            place is Some ==> place->0 < self.connections@.len() && self.connections@[place->0 as int].0
                == handle,
    {
        let count = self.connections.len();
        for i in 0..count
            invariant
                count == self.connections@.len(),
                forall|k: int| 0 <= k < i ==> (#[trigger] self.connections@[k]).0 != handle,
        {
            if self.connections[i].0.id == handle.id {
                return Some(i);
            }
        }
        None
    }
}

} // verus!
