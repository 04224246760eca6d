use bevy_pickleback::addr::Addr;
use bevy_pickleback::client::{client_inbound_step, client_outbound_step};
use bevy_pickleback::drain::DrainStatus;
use bevy_pickleback::events::EventQueue;
use bevy_pickleback::io_class::{IoErrorKind, RecvOutcome};
use bevy_pickleback::journal::LogEntry;
use bevy_pickleback::recording::{RecordingEngine, RecordingSocket};
use bevy_pickleback::server::{server_inbound_step, server_outbound_step};

fn datagram(from: Addr, payload: &[u8]) -> RecvOutcome {
    RecvOutcome::Datagram {
        from,
        payload: payload.to_vec(),
    }
}

fn fail(kind: IoErrorKind) -> RecvOutcome {
    RecvOutcome::Fail { kind }
}

#[test]
fn client_discards_wrong_peer_with_one_warning() {
    // Peer is 203.0.113.5:9000; a datagram arrives from 203.0.113.9:9000.
    let peer = Addr::v4(203, 0, 113, 5, 9000);
    let stranger = Addr::v4(203, 0, 113, 9, 9000);
    let mut engine: RecordingEngine<u64> = RecordingEngine::new();
    let mut queue: EventQueue<u64> = EventQueue::new();
    let mut log: Vec<LogEntry> = Vec::new();
    let incoming = vec![datagram(stranger, b"hello"), fail(IoErrorKind::NoData)];
    let status = client_inbound_step(&peer, 16_000, &mut engine, &mut queue, &mut log, incoming);
    assert_eq!(status, DrainStatus::Stopped);
    assert_eq!(engine.ingested.len(), 0);
    assert_eq!(log.len(), 1);
    assert_eq!(log[0], LogEntry::PeerMismatch { got: stranger });
}

#[test]
fn client_ingests_only_peer_datagrams_in_order() {
    let peer = Addr::v4(203, 0, 113, 5, 9000);
    let stranger = Addr::v4(198, 51, 100, 7, 4000);
    let mut engine: RecordingEngine<u64> = RecordingEngine::new();
    let mut queue: EventQueue<u64> = EventQueue::new();
    let mut log: Vec<LogEntry> = Vec::new();
    let incoming = vec![
        datagram(peer, b"one"),
        datagram(stranger, b"spoof"),
        datagram(peer, b"two"),
        fail(IoErrorKind::NoData),
    ];
    let status = client_inbound_step(&peer, 16_000, &mut engine, &mut queue, &mut log, incoming);
    assert_eq!(status, DrainStatus::Stopped);
    assert_eq!(engine.ingested.len(), 2);
    assert_eq!(engine.ingested[0], (Some(peer), b"one".to_vec()));
    assert_eq!(engine.ingested[1], (Some(peer), b"two".to_vec()));
    assert_eq!(log, vec![LogEntry::PeerMismatch { got: stranger }]);
}

#[test]
fn client_empty_drain_is_noop_beyond_clock_and_events() {
    let peer = Addr::v4(127, 0, 0, 1, 5000);
    let mut engine: RecordingEngine<u64> = RecordingEngine::new();
    engine.pending_events = vec![7, 8];
    let mut queue: EventQueue<u64> = EventQueue::new();
    let mut log: Vec<LogEntry> = Vec::new();
    let status = client_inbound_step(&peer, 16_000, &mut engine, &mut queue, &mut log, vec![]);
    assert_eq!(status, DrainStatus::Running);
    assert_eq!(engine.clock_micros, 16_000);
    assert_eq!(queue.drain_all(), vec![7, 8]);
    assert_eq!(engine.ingested.len(), 0);
    assert!(log.is_empty());
}

#[test]
fn client_stops_on_interrupted_without_logging() {
    let peer = Addr::v4(127, 0, 0, 1, 5000);
    let mut engine: RecordingEngine<u64> = RecordingEngine::new();
    let mut queue: EventQueue<u64> = EventQueue::new();
    let mut log: Vec<LogEntry> = Vec::new();
    let incoming = vec![fail(IoErrorKind::Interrupted), datagram(peer, b"late")];
    let status = client_inbound_step(&peer, 1, &mut engine, &mut queue, &mut log, incoming);
    assert_eq!(status, DrainStatus::Stopped);
    assert_eq!(engine.ingested.len(), 0);
    assert!(log.is_empty());
}

#[test]
fn client_aborts_on_real_error_and_logs_it() {
    let peer = Addr::v4(127, 0, 0, 1, 5000);
    let mut engine: RecordingEngine<u64> = RecordingEngine::new();
    let mut queue: EventQueue<u64> = EventQueue::new();
    let mut log: Vec<LogEntry> = Vec::new();
    let incoming = vec![
        datagram(peer, b"first"),
        fail(IoErrorKind::Other),
        datagram(peer, b"never"),
    ];
    let status = client_inbound_step(&peer, 1, &mut engine, &mut queue, &mut log, incoming);
    assert_eq!(
        status,
        DrainStatus::Aborted {
            kind: IoErrorKind::Other
        }
    );
    assert_eq!(engine.ingested.len(), 1);
    assert_eq!(engine.ingested[0], (Some(peer), b"first".to_vec()));
    assert_eq!(
        log,
        vec![LogEntry::RecvFailed {
            kind: IoErrorKind::Other
        }]
    );
}

#[test]
fn client_logs_each_rejected_ingest_and_drains_on() {
    let peer = Addr::v4(127, 0, 0, 1, 5000);
    let mut engine: RecordingEngine<u64> = RecordingEngine::new();
    engine.reject_ingest = true;
    let mut queue: EventQueue<u64> = EventQueue::new();
    let mut log: Vec<LogEntry> = Vec::new();
    let incoming = vec![
        datagram(peer, b"bad1"),
        datagram(peer, b"bad2"),
        fail(IoErrorKind::NoData),
    ];
    let status = client_inbound_step(&peer, 1, &mut engine, &mut queue, &mut log, incoming);
    assert_eq!(status, DrainStatus::Stopped);
    // Ingest is still called once per peer datagram; each rejection is logged.
    assert_eq!(engine.ingested.len(), 2);
    assert_eq!(log, vec![LogEntry::IngestRejected, LogEntry::IngestRejected]);
}

#[test]
fn server_ingests_three_datagrams_a_b_a_with_correct_senders() {
    // Three datagrams queued in one OS buffer from peers A, B, A.
    let a = Addr::v4(10, 0, 0, 1, 7001);
    let b = Addr::v4(10, 0, 0, 2, 7002);
    let mut engine: RecordingEngine<u64> = RecordingEngine::new();
    let mut queue: EventQueue<u64> = EventQueue::new();
    let mut log: Vec<LogEntry> = Vec::new();
    let incoming = vec![
        datagram(a, b"a1"),
        datagram(b, b"b1"),
        datagram(a, b"a2"),
        fail(IoErrorKind::NoData),
    ];
    let status = server_inbound_step(16_000, &mut engine, &mut queue, &mut log, incoming);
    assert_eq!(status, DrainStatus::Stopped);
    assert_eq!(engine.ingested.len(), 3);
    assert_eq!(engine.ingested[0], (Some(a), b"a1".to_vec()));
    assert_eq!(engine.ingested[1], (Some(b), b"b1".to_vec()));
    assert_eq!(engine.ingested[2], (Some(a), b"a2".to_vec()));
    assert!(log.is_empty());
}

#[test]
fn server_skips_reset_and_interrupted_and_drains_on() {
    let a = Addr::v4(10, 0, 0, 1, 7001);
    let mut engine: RecordingEngine<u64> = RecordingEngine::new();
    let mut queue: EventQueue<u64> = EventQueue::new();
    let mut log: Vec<LogEntry> = Vec::new();
    let incoming = vec![
        fail(IoErrorKind::ConnectionReset),
        datagram(a, b"one"),
        fail(IoErrorKind::Interrupted),
        datagram(a, b"two"),
        fail(IoErrorKind::NoData),
    ];
    let status = server_inbound_step(1, &mut engine, &mut queue, &mut log, incoming);
    assert_eq!(status, DrainStatus::Stopped);
    assert_eq!(engine.ingested.len(), 2);
    assert_eq!(engine.ingested[0], (Some(a), b"one".to_vec()));
    assert_eq!(engine.ingested[1], (Some(a), b"two".to_vec()));
    assert!(log.is_empty());
}

#[test]
fn server_empty_drain_is_noop_beyond_clock_and_events() {
    let mut engine: RecordingEngine<u64> = RecordingEngine::new();
    engine.pending_events = vec![1];
    let mut queue: EventQueue<u64> = EventQueue::new();
    let mut log: Vec<LogEntry> = Vec::new();
    let status = server_inbound_step(33_000, &mut engine, &mut queue, &mut log, vec![]);
    assert_eq!(status, DrainStatus::Running);
    assert_eq!(engine.clock_micros, 33_000);
    assert_eq!(engine.ingested.len(), 0);
    assert!(log.is_empty());
    assert_eq!(queue.drain_all(), vec![1]);
}

#[test]
fn server_aborts_on_real_error() {
    let a = Addr::v4(10, 0, 0, 1, 7001);
    let mut engine: RecordingEngine<u64> = RecordingEngine::new();
    let mut queue: EventQueue<u64> = EventQueue::new();
    let mut log: Vec<LogEntry> = Vec::new();
    let incoming = vec![fail(IoErrorKind::Other), datagram(a, b"never")];
    let status = server_inbound_step(1, &mut engine, &mut queue, &mut log, incoming);
    assert_eq!(
        status,
        DrainStatus::Aborted {
            kind: IoErrorKind::Other
        }
    );
    assert_eq!(engine.ingested.len(), 0);
    assert_eq!(
        log,
        vec![LogEntry::RecvFailed {
            kind: IoErrorKind::Other
        }]
    );
}

#[test]
fn events_keep_engine_emission_order_and_accumulate() {
    let mut engine: RecordingEngine<u64> = RecordingEngine::new();
    engine.pending_events = vec![10, 20, 30];
    let mut queue: EventQueue<u64> = EventQueue::new();
    queue.append(vec![1, 2]); // undrained events from an earlier frame
    let mut log: Vec<LogEntry> = Vec::new();
    let peer = Addr::v4(127, 0, 0, 1, 5000);
    client_inbound_step(&peer, 1, &mut engine, &mut queue, &mut log, vec![]);
    assert_eq!(queue.len(), 5);
    assert_eq!(queue.drain_all(), vec![1, 2, 10, 20, 30]);
    assert_eq!(queue.len(), 0);
    // The drain is one-shot: nothing is pending until the engine emits more.
    assert!(engine.pending_events.is_empty());
}

#[test]
fn client_outbound_sends_every_packet_to_the_peer() {
    let peer = Addr::v4(203, 0, 113, 5, 9000);
    let mut engine: RecordingEngine<u64> = RecordingEngine::new();
    engine.outbound = vec![(None, b"p1".to_vec()), (None, b"p2".to_vec())];
    let mut socket = RecordingSocket::new();
    let mut log: Vec<LogEntry> = Vec::new();
    client_outbound_step(&peer, &mut engine, &mut socket, &mut log);
    assert!(engine.outbound.is_empty());
    assert_eq!(socket.attempts.len(), 2);
    assert_eq!(socket.attempts[0], (Some(peer), b"p1".to_vec()));
    assert_eq!(socket.attempts[1], (Some(peer), b"p2".to_vec()));
    assert!(log.is_empty());
}

#[test]
fn outbound_send_failure_does_not_block_later_packets() {
    let a = Addr::v4(10, 0, 0, 1, 7001);
    let b = Addr::v4(10, 0, 0, 2, 7002);
    let mut engine: RecordingEngine<u64> = RecordingEngine::new();
    engine.outbound = vec![
        (Some(a), b"k0".to_vec()),
        (Some(b), b"k1".to_vec()),
        (Some(a), b"k2".to_vec()),
    ];
    // The second attempt fails; the third must still be attempted.
    let mut socket = RecordingSocket::failing(vec![false, true, false]);
    let mut log: Vec<LogEntry> = Vec::new();
    server_outbound_step(&mut engine, &mut socket, &mut log);
    assert_eq!(socket.attempts.len(), 3);
    assert_eq!(socket.attempts[0], (Some(a), b"k0".to_vec()));
    assert_eq!(socket.attempts[1], (Some(b), b"k1".to_vec()));
    assert_eq!(socket.attempts[2], (Some(a), b"k2".to_vec()));
    assert_eq!(
        log,
        vec![LogEntry::SendFailed {
            kind: IoErrorKind::Other
        }]
    );
}

#[test]
fn payloads_cross_the_bridge_intact_at_both_size_extremes() {
    let peer = Addr::v4(127, 0, 0, 1, 5000);
    let mut engine: RecordingEngine<u64> = RecordingEngine::new();
    let mut queue: EventQueue<u64> = EventQueue::new();
    let mut log: Vec<LogEntry> = Vec::new();
    let mtu_payload = vec![0xAB_u8; 1500];
    let incoming = vec![
        datagram(peer, b""),
        datagram(peer, &mtu_payload),
        fail(IoErrorKind::NoData),
    ];
    let status = client_inbound_step(&peer, 1, &mut engine, &mut queue, &mut log, incoming);
    assert_eq!(status, DrainStatus::Stopped);
    assert_eq!(engine.ingested.len(), 2);
    assert_eq!(engine.ingested[0], (Some(peer), Vec::new()));
    assert_eq!(engine.ingested[1], (Some(peer), mtu_payload));
    assert!(log.is_empty());
}
