//! The mathematical model of one inbound or outbound drain.
//!
//! A drain's observable effect is three things: which (sender, payload)
//! pairs were handed to the engine's ingest, in what order; which log
//! entries were emitted, in what order; and how the drain ended. The client
//! and server bridges each define a step function over this model, and their
//! executable steps are proved to realise it exactly.

use crate::addr::Addr;
use crate::io_class::{IoErrorKind, RecvOutcome};
use crate::journal::LogEntry;
use crate::recording::spec_send_fails;
use vstd::prelude::*;

verus! {

/// How far an inbound drain got.
#[derive(Clone, Copy, Debug, PartialEq, Eq, Structural)]
pub enum DrainStatus {
    /// Every supplied receive outcome was consumed and none ended the drain:
    /// the bridge would still be polling the socket.
    Running,
    /// A benign condition ended the drain for this frame; nothing was logged
    /// for it.
    Stopped,
    /// A real I/O failure aborted the inbound step for this frame; it was
    /// logged, and the next frame retries naturally.
    Aborted { kind: IoErrorKind },
}

/// The observable effect of an inbound drain: what reached the engine, what
/// was logged, and how the drain ended.
pub ghost struct DrainModel {
    /// The (optional sender, payload) pairs handed to the engine's ingest,
    /// in call order.
    pub delivered: Seq<(Option<Addr>, Vec<u8>)>,
    /// The log entries emitted, in emission order.
    pub log: Seq<LogEntry>,
    /// How the drain ended.
    pub status: DrainStatus,
}

/// The model before any receive outcome is consumed: nothing delivered,
/// nothing logged, still draining.
pub open spec fn drain_start() -> DrainModel {
    DrainModel {
        delivered: Seq::empty(),
        log: Seq::empty(),
        status: DrainStatus::Running,
    }
}

/// Every outcome in the sequence is a datagram (none is an OS error
/// condition).
pub open spec fn all_datagrams(outs: Seq<RecvOutcome>) -> bool {
    forall|i: int| 0 <= i < outs.len() ==> outs[i] is Datagram
}

/// The log entries an outbound step emits: attempts are numbered from
/// `start` on the socket, `n` packets are attempted, and each attempt the
/// socket fails contributes one send-failure entry, in attempt order.
pub open spec fn send_log_model(mask: Seq<bool>, start: int, n: int) -> Seq<LogEntry>
    decreases n,
{
    if n <= 0 {
        Seq::empty()
    } else {
        send_log_model(mask, start, n - 1) + (if spec_send_fails(mask, start + n - 1) {
            seq![LogEntry::SendFailed { kind: IoErrorKind::Other }]
        } else {
            Seq::empty()
        })
    }
}

} // verus!
