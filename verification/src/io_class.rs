//! Classification of OS-level receive outcomes.
//!
//! A non-blocking UDP socket reports, on each receive attempt, either a
//! datagram or an error condition. The bridge must tell apart the benign
//! conditions (no data queued, interrupted syscall, and — on a connectionless
//! socket — a reset-style notification left over from a send to an
//! unreachable peer) from genuine I/O failures, because each drives the drain
//! loop differently: stop for this frame, skip to the next receive attempt,
//! or abort the step and surface the error.

use crate::addr::Addr;
use vstd::prelude::*;

verus! {

/// The OS condition reported by a failed receive or send attempt, reduced to
/// the kinds the bridge distinguishes. The host maps its platform's error
/// codes onto these before handing them in.
#[derive(Clone, Copy, Debug, PartialEq, Eq, Structural)]
pub enum IoErrorKind {
    /// Nothing is queued on the socket right now (a non-blocking read would
    /// otherwise block).
    NoData,
    /// The syscall was interrupted before completing.
    Interrupted,
    /// A reset-style notification, e.g. an ICMP port-unreachable surfaced for
    /// an earlier send on this connectionless socket.
    ConnectionReset,
    /// Any other OS-level I/O failure.
    Other,
}

/// One attempt to receive a datagram, as the OS answered it: either a
/// datagram with its sender, or an error condition.
#[derive(Debug)]
pub enum RecvOutcome {
    /// A datagram arrived: who sent it and its payload bytes.
    Datagram { from: Addr, payload: Vec<u8> },
    /// The receive attempt failed with this condition.
    Fail { kind: IoErrorKind },
}

/// What a receive-error condition means for the drain loop of the current
/// frame.
#[derive(Clone, Copy, Debug, PartialEq, Eq, Structural)]
pub enum ErrorDisposition {
    /// Benign: the socket is drained for this frame; stop without logging.
    StopDrain,
    /// Benign: ignore this condition and attempt the next receive.
    SkipDatagram,
    /// A real I/O failure: log it and abort the inbound step for this frame.
    AbortDrain,
}

/// How the client bridge treats each receive-error condition: no data and an
/// interrupted syscall end the drain for the frame; anything else aborts the
/// step.
pub open spec fn spec_client_error_disposition(kind: IoErrorKind) -> ErrorDisposition {
    match kind {
        IoErrorKind::NoData => ErrorDisposition::StopDrain,
        IoErrorKind::Interrupted => ErrorDisposition::StopDrain,
        IoErrorKind::ConnectionReset => ErrorDisposition::AbortDrain,
        IoErrorKind::Other => ErrorDisposition::AbortDrain,
    }
}

/// Executable mirror of [`spec_client_error_disposition`].
pub fn client_error_disposition(kind: IoErrorKind) -> (d: ErrorDisposition)
    ensures
        d == spec_client_error_disposition(kind),
{
    match kind {
        IoErrorKind::NoData => ErrorDisposition::StopDrain,
        IoErrorKind::Interrupted => ErrorDisposition::StopDrain,
        IoErrorKind::ConnectionReset => ErrorDisposition::AbortDrain,
        IoErrorKind::Other => ErrorDisposition::AbortDrain,
    }
}

/// How the server bridge treats each receive-error condition: no data ends
/// the drain for the frame; an interrupted syscall or a reset-style
/// notification (expected on a connectionless socket serving many peers) is
/// skipped and the drain continues; anything else aborts the step.
pub open spec fn spec_server_error_disposition(kind: IoErrorKind) -> ErrorDisposition {
    match kind {
        IoErrorKind::NoData => ErrorDisposition::StopDrain,
        IoErrorKind::Interrupted => ErrorDisposition::SkipDatagram,
        IoErrorKind::ConnectionReset => ErrorDisposition::SkipDatagram,
        IoErrorKind::Other => ErrorDisposition::AbortDrain,
    }
}

/// Executable mirror of [`spec_server_error_disposition`].
pub fn server_error_disposition(kind: IoErrorKind) -> (d: ErrorDisposition)
    ensures
        d == spec_server_error_disposition(kind),
{
    match kind {
        IoErrorKind::NoData => ErrorDisposition::StopDrain,
        IoErrorKind::Interrupted => ErrorDisposition::SkipDatagram,
        IoErrorKind::ConnectionReset => ErrorDisposition::SkipDatagram,
        IoErrorKind::Other => ErrorDisposition::AbortDrain,
    }
}

/// Whether the client bridge accepts a datagram from `from`: only its one
/// configured peer may speak to it; every other sender is discarded.
pub open spec fn spec_client_accepts(peer: Addr, from: Addr) -> bool {
    from == peer
}

/// Executable mirror of [`spec_client_accepts`].
pub fn client_accepts(peer: &Addr, from: &Addr) -> (r: bool)
    ensures
        r == spec_client_accepts(*peer, *from),
{
    from.same_endpoint(peer)
}

} // verus!
