//! Per-frame transport-bridge logic for pumping UDP datagrams between a
//! non-blocking socket and a reliable-messaging protocol engine.
//!
//! A host application runs a fixed-step frame loop; once per frame it invokes
//! an inbound step (advance the engine clock, drain engine events into the
//! host event queue, drain the socket to exhaustion into the engine) and an
//! outbound step (send every packet the engine wants sent). This crate holds
//! the verified decision core of that bridge: how each receive outcome is
//! classified and acted on, for a single-peer client bridge and a many-peer
//! server bridge. The socket itself, the real protocol engine, and the host
//! scheduler live outside; they hand the bridge plain values (addresses,
//! payload bytes, error kinds) and act on its decisions.

pub mod addr;
pub mod client;
pub mod drain;
pub mod io_class;
pub mod events;
pub mod journal;
pub mod recording;
pub mod server;

use vstd::prelude::*;

verus! {

/// Capacity of a bridge's reusable receive buffer: the common Ethernet MTU
/// ceiling. A datagram longer than this is truncated by the OS before the
/// bridge ever sees it.
pub const RECV_BUFFER_LEN: usize = 1500;

} // verus!
