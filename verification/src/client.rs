//! The client bridge: one socket, one validated peer.
//!
//! The client bridge mediates exactly one peer over a connectionless socket.
//! Once per frame, before application logic, its inbound step advances the
//! engine clock, forwards the engine's emitted events to the host queue in
//! emission order, and drains the socket to exhaustion: a datagram from the
//! configured peer is handed to the engine, a datagram from anyone else is
//! logged and discarded without stopping the drain, a benign OS condition
//! ends the drain for the frame, and any other OS error aborts the step.
//! After application logic, its outbound step sends every packet the engine
//! wants sent to the fixed peer, each attempted independently.

use crate::addr::Addr;
use crate::drain::{all_datagrams, drain_start, send_log_model, DrainModel, DrainStatus};
use crate::events::EventQueue;
use crate::io_class::{
    client_accepts, client_error_disposition, spec_client_accepts, spec_client_error_disposition,
    ErrorDisposition, IoErrorKind, RecvOutcome,
};
use crate::journal::LogEntry;
use crate::recording::{RecordingEngine, RecordingSocket};
use vstd::prelude::*;

verus! {

/// One step of the client drain model: how consuming one receive outcome
/// changes what has been delivered, what has been logged, and whether the
/// drain goes on. A drain that has stopped or aborted consumes nothing more.
pub open spec fn client_step_model(
    peer: Addr,
    reject: bool,
    m: DrainModel,
    o: RecvOutcome,
) -> DrainModel {
    if m.status != DrainStatus::Running {
        m
    } else {
        match o {
            RecvOutcome::Datagram { from, payload } => {
                if spec_client_accepts(peer, from) {
                    DrainModel {
                        delivered: m.delivered.push((Some(from), payload)),
                        log: if reject {
                            m.log.push(LogEntry::IngestRejected)
                        } else {
                            m.log
                        },
                        status: DrainStatus::Running,
                    }
                } else {
                    DrainModel {
                        delivered: m.delivered,
                        log: m.log.push(LogEntry::PeerMismatch { got: from }),
                        status: DrainStatus::Running,
                    }
                }
            },
            RecvOutcome::Fail { kind } => {
                match spec_client_error_disposition(kind) {
                    ErrorDisposition::StopDrain => DrainModel {
                        delivered: m.delivered,
                        log: m.log,
                        status: DrainStatus::Stopped,
                    },
                    ErrorDisposition::SkipDatagram => m,
                    ErrorDisposition::AbortDrain => DrainModel {
                        delivered: m.delivered,
                        log: m.log.push(LogEntry::RecvFailed { kind }),
                        status: DrainStatus::Aborted { kind },
                    },
                }
            },
        }
    }
}

/// The client drain model over a whole frame: the receive outcomes the OS
/// yields, consumed in order from [`drain_start`].
pub open spec fn client_drain_model(
    peer: Addr,
    reject: bool,
    outs: Seq<RecvOutcome>,
) -> DrainModel
    decreases outs.len(),
{
    if outs.len() == 0 {
        drain_start()
    } else {
        client_step_model(
            peer,
            reject,
            client_drain_model(peer, reject, outs.drop_last()),
            outs.last(),
        )
    }
}

/// The client bridge's inbound step, run once per frame before application
/// logic: advance the engine clock by the frame delta, forward the engine's
/// emitted events to the host queue in emission order, then drain the
/// socket's receive outcomes into the engine under the client rules.
///
/// The returned status and every effect on the engine, the queue and the log
/// are exactly what [`client_drain_model`] says for the supplied outcomes.
#[verifier::loop_isolation(false)]
pub fn client_inbound_step<E>(
    peer: &Addr,
    delta_micros: u64,
    engine: &mut RecordingEngine<E>,
    queue: &mut EventQueue<E>,
    log: &mut Vec<LogEntry>,
    incoming: Vec<RecvOutcome>,
) -> (status: DrainStatus)
    requires
        old(engine).clock_micros + delta_micros <= u64::MAX,
    ensures
        ({
            let m = client_drain_model(*peer, old(engine).reject_ingest, incoming@);
            &&& status == m.status
            &&& final(engine).ingested@ == old(engine).ingested@ + m.delivered
            &&& final(log)@ == old(log)@ + m.log
        }),
        final(engine).clock_micros == old(engine).clock_micros + delta_micros,
        final(engine).pending_events@ == Seq::<E>::empty(),
        final(queue)@ == old(queue)@ + old(engine).pending_events@,
        final(engine).reject_ingest == old(engine).reject_ingest,
        final(engine).outbound == old(engine).outbound,
{
    engine.advance(delta_micros);
    let evs = engine.drain_events();
    queue.append(evs);
    let mut status = DrainStatus::Running;
    for o in it: incoming
        invariant
            ({
                let m = client_drain_model(
                    *peer,
                    old(engine).reject_ingest,
                    it.seq().take(it.index() as int),
                );
                &&& status == m.status
                &&& engine.ingested@ == old(engine).ingested@ + m.delivered
                &&& log@ == old(log)@ + m.log
            }),
            engine.clock_micros == old(engine).clock_micros + delta_micros,
            engine.pending_events@ == Seq::<E>::empty(),
            queue@ == old(queue)@ + old(engine).pending_events@,
            engine.reject_ingest == old(engine).reject_ingest,
            engine.outbound == old(engine).outbound,
    {
        let ghost pre = it.seq().take(it.index() as int);
        let ghost cur = it.seq()[it.index() as int];
        proof {
            assert(o == cur);
            assert(it.seq().take(it.index() as int + 1) =~= pre.push(cur));
            assert(pre.push(cur).drop_last() =~= pre);
        }
        match status {
            DrainStatus::Running => {
                match o {
                    RecvOutcome::Datagram { from, payload } => {
                        if client_accepts(peer, &from) {
                            let ok = engine.ingest(Some(from), payload);
                            if !ok {
                                log.push(LogEntry::IngestRejected);
                            }
                        } else {
                            log.push(LogEntry::PeerMismatch { got: from });
                        }
                    },
                    RecvOutcome::Fail { kind } => {
                        match client_error_disposition(kind) {
                            ErrorDisposition::StopDrain => {
                                status = DrainStatus::Stopped;
                            },
                            ErrorDisposition::SkipDatagram => {},
                            ErrorDisposition::AbortDrain => {
                                log.push(LogEntry::RecvFailed { kind });
                                status = DrainStatus::Aborted { kind };
                            },
                        }
                    },
                }
            },
            _ => {},
        }
    }
    proof {
        assert(incoming@.take(incoming@.len() as int) =~= incoming@);
    }
    status
}

/// The destinations the client bridge gives one frame's outbound packets:
/// whatever destination the engine queued is ignored, and every payload is
/// addressed to the one configured peer.
pub open spec fn to_peer(
    peer: Addr,
    pkts: Seq<(Option<Addr>, Vec<u8>)>,
) -> Seq<(Option<Addr>, Vec<u8>)> {
    pkts.map_values(|e: (Option<Addr>, Vec<u8>)| (Some(peer), e.1))
}

/// The client bridge's outbound step, run once per frame after application
/// logic: take every packet the engine wants sent and attempt one send per
/// packet to the fixed peer, in queue order. Every packet is attempted
/// exactly once; a failed attempt is logged and the remaining packets are
/// still attempted.
#[verifier::loop_isolation(false)]
pub fn client_outbound_step<E>(
    peer: &Addr,
    engine: &mut RecordingEngine<E>,
    socket: &mut RecordingSocket,
    log: &mut Vec<LogEntry>,
)
    ensures
        final(socket).attempts@ == old(socket).attempts@ + to_peer(
            *peer,
            old(engine).outbound@,
        ),
        final(log)@ == old(log)@ + send_log_model(
            old(socket).fail_mask@,
            old(socket).attempts@.len() as int,
            old(engine).outbound@.len() as int,
        ),
        final(socket).fail_mask == old(socket).fail_mask,
        final(engine).outbound@ == Seq::<(Option<Addr>, Vec<u8>)>::empty(),
        final(engine).clock_micros == old(engine).clock_micros,
        final(engine).pending_events == old(engine).pending_events,
        final(engine).ingested == old(engine).ingested,
        final(engine).reject_ingest == old(engine).reject_ingest,
{
    let pkts = engine.take_outbound();
    for e in it: pkts
        invariant
            socket.attempts@ == old(socket).attempts@ + to_peer(
                *peer,
                it.seq().take(it.index() as int),
            ),
            log@ == old(log)@ + send_log_model(
                old(socket).fail_mask@,
                old(socket).attempts@.len() as int,
                it.index() as int,
            ),
            socket.fail_mask == old(socket).fail_mask,
            engine.outbound@ == Seq::<(Option<Addr>, Vec<u8>)>::empty(),
            engine.clock_micros == old(engine).clock_micros,
            engine.pending_events == old(engine).pending_events,
            engine.ingested == old(engine).ingested,
            engine.reject_ingest == old(engine).reject_ingest,
    {
        proof {
            assert(to_peer(*peer, it.seq().take(it.index() as int + 1)) =~= to_peer(
                *peer,
                it.seq().take(it.index() as int),
            ).push((Some(*peer), it.seq()[it.index() as int].1)));
        }
        let (_queued_dest, payload) = e;
        let ok = socket.send(Some(*peer), payload);
        if !ok {
            log.push(LogEntry::SendFailed { kind: IoErrorKind::Other });
        }
    }
    proof {
        assert(to_peer(*peer, pkts@.take(pkts@.len() as int)) =~= to_peer(*peer, pkts@));
    }
}

/// The deliveries the client rules owe the engine for a run of datagrams:
/// each datagram from the configured peer, in arrival order, paired with
/// that peer as its sender — and nothing for any other sender.
pub open spec fn client_expected_deliveries(peer: Addr, outs: Seq<RecvOutcome>) -> Seq<
    (Option<Addr>, Vec<u8>),
>
    decreases outs.len(),
{
    if outs.len() == 0 {
        Seq::empty()
    } else {
        let rest = client_expected_deliveries(peer, outs.drop_last());
        let o = outs.last();
        if o is Datagram && o->Datagram_from == peer {
            rest.push((Some(o->Datagram_from), o->Datagram_payload))
        } else {
            rest
        }
    }
}

/// How many of a run of datagrams the client rules discard: those whose
/// sender is not the configured peer.
pub open spec fn client_mismatch_count(peer: Addr, outs: Seq<RecvOutcome>) -> int
    decreases outs.len(),
{
    if outs.len() == 0 {
        0
    } else {
        client_mismatch_count(peer, outs.drop_last()) + if outs.last() is Datagram
            && outs.last()->Datagram_from != peer {
            1int
        } else {
            0int
        }
    }
}

/// Law: over any run of datagrams, the client bridge hands the engine
/// exactly the datagrams from its configured peer, once each, in order, with
/// the received payloads — a datagram from any other address is never
/// ingested — the drain consumes the whole run, and every datagram is either
/// delivered or discarded as a mismatch.
pub proof fn lemma_client_delivers_exactly_peer_datagrams(
    peer: Addr,
    reject: bool,
    outs: Seq<RecvOutcome>,
)
    requires
        all_datagrams(outs),
    ensures
        ({
            let m = client_drain_model(peer, reject, outs);
            &&& m.status == DrainStatus::Running
            &&& m.delivered == client_expected_deliveries(peer, outs)
            &&& m.delivered.len() + client_mismatch_count(peer, outs) == outs.len()
        }),
    decreases outs.len(),
{
    if outs.len() > 0 {
        assert(all_datagrams(outs.drop_last())) by {
            assert(forall|i: int|
                0 <= i < outs.drop_last().len() ==> outs.drop_last()[i] == outs[i]);
        }
        lemma_client_delivers_exactly_peer_datagrams(peer, reject, outs.drop_last());
    }
}

/// Law: whatever mix of datagrams and error conditions a frame yields, every
/// delivery the client bridge makes is attributed to the configured peer —
/// the engine never sees another sender.
pub proof fn lemma_client_delivers_only_peer(peer: Addr, reject: bool, outs: Seq<RecvOutcome>)
    ensures
        forall|i: int|
            0 <= i < client_drain_model(peer, reject, outs).delivered.len()
                ==> #[trigger] client_drain_model(peer, reject, outs).delivered[i].0 == Some(peer),
    decreases outs.len(),
{
    if outs.len() > 0 {
        lemma_client_delivers_only_peer(peer, reject, outs.drop_last());
    }
}

/// Law: a drain with no pending receive outcomes delivers nothing and logs
/// nothing — with the inbound step's contract, the step is then a no-op
/// beyond the clock advance and the event drain.
pub proof fn lemma_client_empty_drain_is_noop(peer: Addr, reject: bool)
    ensures
        client_drain_model(peer, reject, Seq::<RecvOutcome>::empty()) == drain_start(),
{
}

/// Law: when a run of datagrams is followed by the benign no-data condition,
/// the drain delivers and logs exactly what it does for the run alone, and
/// ends stopped for the frame — the no-data signal terminates the drain and
/// is itself never logged.
pub proof fn lemma_client_drain_stops_at_no_data(peer: Addr, reject: bool, outs: Seq<RecvOutcome>)
    requires
        all_datagrams(outs),
    ensures
        ({
            let whole = client_drain_model(
                peer,
                reject,
                outs.push(RecvOutcome::Fail { kind: IoErrorKind::NoData }),
            );
            let run = client_drain_model(peer, reject, outs);
            &&& whole.status == DrainStatus::Stopped
            &&& whole.delivered == run.delivered
            &&& whole.log == run.log
        }),
{
    let pushed = outs.push(RecvOutcome::Fail { kind: IoErrorKind::NoData });
    assert(pushed.drop_last() =~= outs);
    lemma_client_delivers_exactly_peer_datagrams(peer, reject, outs);
}

} // verus!
