//! The server bridge: one socket, many peers.
//!
//! The server bridge multiplexes many peers over one listening socket. It
//! has no fixed peer: every inbound datagram is attributed to the sender the
//! OS reports and handed to the engine with that address, and every outbound
//! packet carries an explicit destination supplied by the engine. Its drain
//! rules differ from the client's in one place: an interrupted syscall or a
//! reset-style notification (an ICMP port-unreachable surfaced for an
//! earlier send to a now-unreachable peer) is skipped and the drain goes on,
//! rather than ending the frame.

use crate::addr::Addr;
use crate::drain::{all_datagrams, drain_start, send_log_model, DrainModel, DrainStatus};
use crate::events::EventQueue;
use crate::io_class::{
    server_error_disposition, spec_server_error_disposition, ErrorDisposition, IoErrorKind,
    RecvOutcome,
};
use crate::journal::LogEntry;
use crate::recording::{RecordingEngine, RecordingSocket};
use vstd::prelude::*;

verus! {

/// One step of the server drain model: every datagram is delivered with its
/// own sender — the server discards nothing by address — and error
/// conditions follow the server dispositions. A drain that has stopped or
/// aborted consumes nothing more.
pub open spec fn server_step_model(reject: bool, m: DrainModel, o: RecvOutcome) -> DrainModel {
    if m.status != DrainStatus::Running {
        m
    } else {
        match o {
            RecvOutcome::Datagram { from, payload } => DrainModel {
                delivered: m.delivered.push((Some(from), payload)),
                log: if reject {
                    m.log.push(LogEntry::IngestRejected)
                } else {
                    m.log
                },
                status: DrainStatus::Running,
            },
            RecvOutcome::Fail { kind } => {
                match spec_server_error_disposition(kind) {
                    ErrorDisposition::StopDrain => DrainModel {
                        delivered: m.delivered,
                        log: m.log,
                        status: DrainStatus::Stopped,
                    },
                    ErrorDisposition::SkipDatagram => m,
                    ErrorDisposition::AbortDrain => DrainModel {
                        delivered: m.delivered,
                        log: m.log.push(LogEntry::RecvFailed { kind }),
                        status: DrainStatus::Aborted { kind },
                    },
                }
            },
        }
    }
}

/// The server drain model over a whole frame: the receive outcomes the OS
/// yields, consumed in order from [`drain_start`].
pub open spec fn server_drain_model(reject: bool, outs: Seq<RecvOutcome>) -> DrainModel
    decreases outs.len(),
{
    if outs.len() == 0 {
        drain_start()
    } else {
        server_step_model(reject, server_drain_model(reject, outs.drop_last()), outs.last())
    }
}

/// The server bridge's inbound step, run once per frame before application
/// logic: advance the engine clock by the frame delta, forward the engine's
/// emitted events to the host queue in emission order, then drain the
/// socket's receive outcomes into the engine under the server rules,
/// attributing every datagram to its sender.
///
/// The returned status and every effect on the engine, the queue and the log
/// are exactly what [`server_drain_model`] says for the supplied outcomes.
#[verifier::loop_isolation(false)]
pub fn server_inbound_step<E>(
    delta_micros: u64,
    engine: &mut RecordingEngine<E>,
    queue: &mut EventQueue<E>,
    log: &mut Vec<LogEntry>,
    incoming: Vec<RecvOutcome>,
) -> (status: DrainStatus)
    requires
        old(engine).clock_micros + delta_micros <= u64::MAX,
    ensures
        ({
            let m = server_drain_model(old(engine).reject_ingest, incoming@);
            &&& status == m.status
            &&& final(engine).ingested@ == old(engine).ingested@ + m.delivered
            &&& final(log)@ == old(log)@ + m.log
        }),
        final(engine).clock_micros == old(engine).clock_micros + delta_micros,
        final(engine).pending_events@ == Seq::<E>::empty(),
        final(queue)@ == old(queue)@ + old(engine).pending_events@,
        final(engine).reject_ingest == old(engine).reject_ingest,
        final(engine).outbound == old(engine).outbound,
{
    engine.advance(delta_micros);
    let evs = engine.drain_events();
    queue.append(evs);
    let mut status = DrainStatus::Running;
    for o in it: incoming
        invariant
            ({
                let m = server_drain_model(
                    old(engine).reject_ingest,
                    it.seq().take(it.index() as int),
                );
                &&& status == m.status
                &&& engine.ingested@ == old(engine).ingested@ + m.delivered
                &&& log@ == old(log)@ + m.log
            }),
            engine.clock_micros == old(engine).clock_micros + delta_micros,
            engine.pending_events@ == Seq::<E>::empty(),
            queue@ == old(queue)@ + old(engine).pending_events@,
            engine.reject_ingest == old(engine).reject_ingest,
            engine.outbound == old(engine).outbound,
    {
        let ghost pre = it.seq().take(it.index() as int);
        let ghost cur = it.seq()[it.index() as int];
        proof {
            assert(o == cur);
            assert(it.seq().take(it.index() as int + 1) =~= pre.push(cur));
            assert(pre.push(cur).drop_last() =~= pre);
        }
        match status {
            DrainStatus::Running => {
                match o {
                    RecvOutcome::Datagram { from, payload } => {
                        let ok = engine.ingest(Some(from), payload);
                        if !ok {
                            log.push(LogEntry::IngestRejected);
                        }
                    },
                    RecvOutcome::Fail { kind } => {
                        match server_error_disposition(kind) {
                            ErrorDisposition::StopDrain => {
                                status = DrainStatus::Stopped;
                            },
                            ErrorDisposition::SkipDatagram => {},
                            ErrorDisposition::AbortDrain => {
                                log.push(LogEntry::RecvFailed { kind });
                                status = DrainStatus::Aborted { kind };
                            },
                        }
                    },
                }
            },
            _ => {},
        }
    }
    proof {
        assert(incoming@.take(incoming@.len() as int) =~= incoming@);
    }
    status
}

/// The server bridge's outbound step, run once per frame after application
/// logic: take every (destination, packet) pair the engine queued across all
/// peers and attempt one send per pair, to exactly the destination the
/// engine supplied, in queue order. Every pair is attempted exactly once; a
/// failed attempt is logged and the remaining pairs are still attempted.
#[verifier::loop_isolation(false)]
pub fn server_outbound_step<E>(
    engine: &mut RecordingEngine<E>,
    socket: &mut RecordingSocket,
    log: &mut Vec<LogEntry>,
)
    ensures
        final(socket).attempts@ == old(socket).attempts@ + old(engine).outbound@,
        final(log)@ == old(log)@ + send_log_model(
            old(socket).fail_mask@,
            old(socket).attempts@.len() as int,
            old(engine).outbound@.len() as int,
        ),
        final(socket).fail_mask == old(socket).fail_mask,
        final(engine).outbound@ == Seq::<(Option<Addr>, Vec<u8>)>::empty(),
        final(engine).clock_micros == old(engine).clock_micros,
        final(engine).pending_events == old(engine).pending_events,
        final(engine).ingested == old(engine).ingested,
        final(engine).reject_ingest == old(engine).reject_ingest,
{
    let pkts = engine.take_outbound();
    for e in it: pkts
        invariant
            socket.attempts@ == old(socket).attempts@ + it.seq().take(it.index() as int),
            log@ == old(log)@ + send_log_model(
                old(socket).fail_mask@,
                old(socket).attempts@.len() as int,
                it.index() as int,
            ),
            socket.fail_mask == old(socket).fail_mask,
            engine.outbound@ == Seq::<(Option<Addr>, Vec<u8>)>::empty(),
            engine.clock_micros == old(engine).clock_micros,
            engine.pending_events == old(engine).pending_events,
            engine.ingested == old(engine).ingested,
            engine.reject_ingest == old(engine).reject_ingest,
    {
        proof {
            assert(it.seq().take(it.index() as int + 1) =~= it.seq().take(
                it.index() as int,
            ).push(it.seq()[it.index() as int]));
        }
        let (dest, payload) = e;
        let ok = socket.send(dest, payload);
        if !ok {
            log.push(LogEntry::SendFailed { kind: IoErrorKind::Other });
        }
    }
    proof {
        assert(pkts@.take(pkts@.len() as int) =~= pkts@);
    }
}

/// The deliveries the server rules owe the engine for a run of datagrams:
/// every datagram, once each, in arrival order, paired with its own sender.
pub open spec fn server_expected_deliveries(outs: Seq<RecvOutcome>) -> Seq<
    (Option<Addr>, Vec<u8>),
>
    decreases outs.len(),
{
    if outs.len() == 0 {
        Seq::empty()
    } else {
        let rest = server_expected_deliveries(outs.drop_last());
        let o = outs.last();
        if o is Datagram {
            rest.push((Some(o->Datagram_from), o->Datagram_payload))
        } else {
            rest
        }
    }
}

/// Law: over any run of datagrams, the server bridge hands the engine every
/// datagram exactly once, in arrival order, each paired with its own sender
/// — no cross-attribution between peers — and the drain consumes the whole
/// run.
pub proof fn lemma_server_delivers_every_datagram(reject: bool, outs: Seq<RecvOutcome>)
    requires
        all_datagrams(outs),
    ensures
        ({
            let m = server_drain_model(reject, outs);
            &&& m.status == DrainStatus::Running
            &&& m.delivered == server_expected_deliveries(outs)
            &&& m.delivered.len() == outs.len()
        }),
    decreases outs.len(),
{
    if outs.len() > 0 {
        assert(all_datagrams(outs.drop_last())) by {
            assert(forall|i: int|
                0 <= i < outs.drop_last().len() ==> outs.drop_last()[i] == outs[i]);
        }
        lemma_server_delivers_every_datagram(reject, outs.drop_last());
    }
}

/// Law: a drain with no pending receive outcomes delivers nothing and logs
/// nothing — with the inbound step's contract, the step is then a no-op
/// beyond the clock advance and the event drain.
pub proof fn lemma_server_empty_drain_is_noop(reject: bool)
    ensures
        server_drain_model(reject, Seq::<RecvOutcome>::empty()) == drain_start(),
{
}

/// Law: the conditions the server treats as skippable — an interrupted
/// syscall or a reset-style notification — neither end the drain, deliver
/// anything, nor leave a log entry: the outcomes around them decide the
/// drain alone.
pub proof fn lemma_server_skips_benign_conditions(
    reject: bool,
    outs: Seq<RecvOutcome>,
    kind: IoErrorKind,
)
    requires
        spec_server_error_disposition(kind) == ErrorDisposition::SkipDatagram,
    ensures
        server_drain_model(reject, outs.push(RecvOutcome::Fail { kind })) == server_drain_model(
            reject,
            outs,
        ),
{
    let pushed = outs.push(RecvOutcome::Fail { kind });
    assert(pushed.drop_last() =~= outs);
}

} // verus!
