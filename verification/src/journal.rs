//! The bridge's log, modelled as a value.
//!
//! The bridge never escalates a runtime condition into a crash: wrong-peer
//! datagrams, per-datagram engine rejections, and transient I/O failures are
//! logged and the bridge carries on. So "what gets logged" is part of the
//! bridge's observable behaviour, and is modelled here as entries appended to
//! a sequence. Every entry the bridge emits is warning-level: benign OS
//! conditions produce no entry at all, and nothing in this layer is fatal
//! past the current frame.

use crate::addr::Addr;
use crate::io_class::IoErrorKind;
use vstd::prelude::*;

verus! {

/// One warning the bridge would emit to the host's log.
#[derive(Clone, Copy, Debug, PartialEq, Eq, Structural)]
pub enum LogEntry {
    /// The client bridge received a datagram from an address other than its
    /// configured peer and discarded it.
    PeerMismatch { got: Addr },
    /// The engine rejected one ingested datagram (malformed, or a policy
    /// violation inside the engine); the drain carried on.
    IngestRejected,
    /// A receive attempt failed with a non-benign condition; the inbound
    /// step was aborted for this frame.
    RecvFailed { kind: IoErrorKind },
    /// One outbound send attempt failed; the remaining packets were still
    /// attempted.
    SendFailed { kind: IoErrorKind },
}

} // verus!
