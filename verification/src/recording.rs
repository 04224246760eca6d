//! A recording protocol engine and a recording socket.
//!
//! The real protocol engine is an opaque external collaborator reached
//! through a narrow contract: advance the clock, ingest raw bytes with an
//! optional sender, enumerate outbound packets, drain emitted events. The
//! bridge's per-frame steps are verified here against an engine that records
//! every call it receives — any conforming engine can be substituted, since
//! the steps rely only on this contract. The recording socket plays the same
//! role for the outbound side: it records every send attempt and can be told
//! to fail chosen attempts, so that the independence of per-packet sends is
//! stated and checked.

use crate::addr::Addr;
use vstd::prelude::*;

verus! {

/// An engine that records the calls the bridge makes, exposing exactly the
/// contract the bridge needs from the real protocol stack.
///
/// Events are an opaque, engine-defined type `E`: the bridge forwards them
/// verbatim and never inspects them.
pub struct RecordingEngine<E> {
    /// The engine's internal clock, in microseconds.
    pub clock_micros: u64,
    /// Events the engine has emitted since the last drain, oldest first.
    pub pending_events: Vec<E>,
    /// Every ingest call made so far: the optional sender address handed in,
    /// and the payload bytes, in call order.
    pub ingested: Vec<(Option<Addr>, Vec<u8>)>,
    /// Ingest policy: when true the engine rejects every datagram, as a real
    /// engine does for malformed input or a policy violation.
    pub reject_ingest: bool,
    /// The packets the engine currently wants sent: an optional destination
    /// (present for a server engine, absent for a client engine, whose only
    /// destination is the configured peer) and the payload bytes.
    pub outbound: Vec<(Option<Addr>, Vec<u8>)>,
}

impl<E> RecordingEngine<E> {
    /// A fresh engine: clock at zero, nothing pending, accepting ingest.
    pub fn new() -> (e: RecordingEngine<E>)
        ensures
            e.clock_micros == 0,
            e.pending_events@ == Seq::<E>::empty(),
            e.ingested@ == Seq::<(Option<Addr>, Vec<u8>)>::empty(),
            !e.reject_ingest,
            e.outbound@ == Seq::<(Option<Addr>, Vec<u8>)>::empty(),
    {
        RecordingEngine {
            clock_micros: 0,
            pending_events: Vec::new(),
            ingested: Vec::new(),
            reject_ingest: false,
            outbound: Vec::new(),
        }
    }

    /// Advance the engine's internal clock by one frame's elapsed time.
    pub fn advance(&mut self, delta_micros: u64)
        requires
            old(self).clock_micros + delta_micros <= u64::MAX,
        ensures
            final(self).clock_micros == old(self).clock_micros + delta_micros,
            final(self).pending_events == old(self).pending_events,
            final(self).ingested == old(self).ingested,
            final(self).reject_ingest == old(self).reject_ingest,
            final(self).outbound == old(self).outbound,
    {
        self.clock_micros = self.clock_micros + delta_micros;
    }

    /// Hand the engine one datagram: its payload and, where the bridge knows
    /// it, the sender. Returns false when the engine rejects the datagram.
    pub fn ingest(&mut self, source: Option<Addr>, payload: Vec<u8>) -> (ok: bool)
        ensures
            final(self).ingested@ == old(self).ingested@.push((source, payload)),
            ok == !old(self).reject_ingest,
            final(self).clock_micros == old(self).clock_micros,
            final(self).pending_events == old(self).pending_events,
            final(self).reject_ingest == old(self).reject_ingest,
            final(self).outbound == old(self).outbound,
    {
        self.ingested.push((source, payload));
        !self.reject_ingest
    }

    /// Drain the events the engine has emitted since the previous drain, in
    /// emission order. One-shot: a second drain in the same frame gets
    /// nothing.
    pub fn drain_events(&mut self) -> (evs: Vec<E>)
        ensures
            evs@ == old(self).pending_events@,
            final(self).pending_events@ == Seq::<E>::empty(),
            final(self).clock_micros == old(self).clock_micros,
            final(self).ingested == old(self).ingested,
            final(self).reject_ingest == old(self).reject_ingest,
            final(self).outbound == old(self).outbound,
    {
        let mut evs: Vec<E> = Vec::new();
        core::mem::swap(&mut evs, &mut self.pending_events);
        evs
    }

    /// Take every packet the engine currently wants sent, in queue order,
    /// leaving its outbound queue empty.
    pub fn take_outbound(&mut self) -> (pkts: Vec<(Option<Addr>, Vec<u8>)>)
        ensures
            pkts@ == old(self).outbound@,
            final(self).outbound@ == Seq::<(Option<Addr>, Vec<u8>)>::empty(),
            final(self).clock_micros == old(self).clock_micros,
            final(self).pending_events == old(self).pending_events,
            final(self).ingested == old(self).ingested,
            final(self).reject_ingest == old(self).reject_ingest,
    {
        let mut pkts: Vec<(Option<Addr>, Vec<u8>)> = Vec::new();
        core::mem::swap(&mut pkts, &mut self.outbound);
        pkts
    }
}

/// Whether send attempt number `i` (counting every attempt on this socket
/// from its creation) fails: the mask marks failing attempts, and attempts
/// past its end succeed.
pub open spec fn spec_send_fails(mask: Seq<bool>, i: int) -> bool {
    0 <= i < mask.len() && mask[i]
}

/// A socket stand-in that records every send attempt, failing the attempts
/// its mask marks.
pub struct RecordingSocket {
    /// Every send attempt so far: destination and payload, in attempt order.
    pub attempts: Vec<(Option<Addr>, Vec<u8>)>,
    /// Which attempt numbers fail; attempts past its end succeed.
    pub fail_mask: Vec<bool>,
}

impl RecordingSocket {
    /// A socket on which every send attempt succeeds.
    pub fn new() -> (s: RecordingSocket)
        ensures
            s.attempts@ == Seq::<(Option<Addr>, Vec<u8>)>::empty(),
            s.fail_mask@ == Seq::<bool>::empty(),
    {
        RecordingSocket { attempts: Vec::new(), fail_mask: Vec::new() }
    }

    /// A socket that fails exactly the attempt numbers the mask marks.
    pub fn failing(fail_mask: Vec<bool>) -> (s: RecordingSocket)
        ensures
            s.attempts@ == Seq::<(Option<Addr>, Vec<u8>)>::empty(),
            s.fail_mask@ == fail_mask@,
    {
        RecordingSocket { attempts: Vec::new(), fail_mask }
    }

    /// Attempt to send one datagram. The attempt is recorded whether or not
    /// it succeeds; success is decided by the mask alone, so one failure
    /// says nothing about the attempts after it.
    pub fn send(&mut self, dest: Option<Addr>, payload: Vec<u8>) -> (ok: bool)
        ensures
            final(self).attempts@ == old(self).attempts@.push((dest, payload)),
            ok == !spec_send_fails(old(self).fail_mask@, old(self).attempts@.len() as int),
            final(self).fail_mask == old(self).fail_mask,
    {
        let idx = self.attempts.len();
        let fail = idx < self.fail_mask.len() && self.fail_mask[idx];
        self.attempts.push((dest, payload));
        !fail
    }
}

} // verus!
