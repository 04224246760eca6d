//! The host's per-frame event queue.
//!
//! Each bridge owns one ordered queue of opaque, engine-defined event values
//! (state transitions for a client, connect/disconnect/message events for a
//! server). The inbound step appends everything the engine emitted that
//! frame, preserving emission order; downstream consumers drain it; undrained
//! events accumulate — retention is the host's business, not the bridge's.

use vstd::prelude::*;

verus! {

/// An ordered queue of opaque event values, appended to by the inbound step
/// and drained by the host. The bridge never inspects or transforms the
/// events it forwards.
pub struct EventQueue<E> {
    items: Vec<E>,
}

impl<E> View for EventQueue<E> {
    type V = Seq<E>;

    closed spec fn view(&self) -> Seq<E> {
        self.items@
    }
}

impl<E> EventQueue<E> {
    /// An empty queue, created once when its bridge is constructed.
    pub fn new() -> (q: EventQueue<E>)
        ensures
            q@ == Seq::<E>::empty(),
    {
        EventQueue { items: Vec::new() }
    }

    /// Append one frame's drained events behind whatever is already queued,
    /// in the order the engine emitted them.
    pub fn append(&mut self, batch: Vec<E>)
        ensures
            final(self)@ == old(self)@ + batch@,
    {
        let ghost orig: Seq<E> = batch@;
        for e in it: batch
            invariant
                it.seq() == orig,
                self.items@ == old(self)@ + orig.take(it.index() as int),
        {
            proof {
                assert(orig.take(it.index() as int + 1) =~= orig.take(it.index() as int).push(
                    orig[it.index() as int],
                ));
            }
            self.items.push(e);
        }
        proof {
            assert(orig.take(orig.len() as int) =~= orig);
        }
    }

    /// Hand every queued event to the consumer, oldest first, leaving the
    /// queue empty.
    pub fn drain_all(&mut self) -> (evs: Vec<E>)
        ensures
            evs@ == old(self)@,
            final(self)@ == Seq::<E>::empty(),
    {
        let mut evs: Vec<E> = Vec::new();
        core::mem::swap(&mut evs, &mut self.items);
        evs
    }

    /// How many events are queued.
    pub fn len(&self) -> (n: usize)
        ensures
            n == self@.len(),
    {
        self.items.len()
    }
}

} // verus!
