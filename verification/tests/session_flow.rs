use udp_tracker::errors::TrackerError;
use udp_tracker::session::{AnnounceParams, Session, Step};
use udp_tracker::wire::{ACTION_ANNOUNCE, ACTION_CONNECT, ACTION_ERROR};

fn be32(b: &[u8]) -> u32 {
    u32::from_be_bytes([b[0], b[1], b[2], b[3]])
}

fn be64(b: &[u8]) -> u64 {
    u64::from_be_bytes([b[0], b[1], b[2], b[3], b[4], b[5], b[6], b[7]])
}

fn connect_response(transaction_id: u32, connection_id: u64) -> Vec<u8> {
    let mut b = Vec::new();
    b.extend_from_slice(&ACTION_CONNECT.to_be_bytes());
    b.extend_from_slice(&transaction_id.to_be_bytes());
    b.extend_from_slice(&connection_id.to_be_bytes());
    b
}

fn announce_response(transaction_id: u32, interval: u32, leechers: u32, seeders: u32) -> Vec<u8> {
    let mut b = Vec::new();
    b.extend_from_slice(&ACTION_ANNOUNCE.to_be_bytes());
    b.extend_from_slice(&transaction_id.to_be_bytes());
    b.extend_from_slice(&interval.to_be_bytes());
    b.extend_from_slice(&leechers.to_be_bytes());
    b.extend_from_slice(&seeders.to_be_bytes());
    b
}

fn send_bytes(step: Step) -> (Vec<u8>, u64) {
    match step {
        Step::Send { bytes, deadline } => (bytes, deadline),
        other => panic!("expected a send step, got {:?}", other),
    }
}

/// Drives one full announce: answers the Connect if one is sent, then the
/// Announce. Returns the response the session reported.
fn complete_announce(
    s: &mut Session,
    p: AnnounceParams,
    now: u64,
    connection_id: u64,
) -> udp_tracker::wire::Response {
    let (bytes, _deadline) = send_bytes(s.start_announce(p, now));
    let bytes = if bytes.len() == 16 {
        // a Connect exchange first
        let tid = be32(&bytes[12..16]);
        let (announce, _d) = send_bytes(s.on_datagram(&connect_response(tid, connection_id), now));
        announce
    } else {
        bytes
    };
    assert_eq!(bytes.len(), 98);
    let tid = be32(&bytes[12..16]);
    match s.on_datagram(&announce_response(tid, 1800, 4, 9), now) {
        Step::Done { response } => response,
        other => panic!("expected completion, got {:?}", other),
    }
}

#[test]
fn end_to_end_connect_then_announce() {
    let connection_id: u64 = 0x1122_3344_5566_7788;
    let infohash = [0x56u8; 20];
    let peer_id = [0x2Du8; 20];
    let mut s = Session::new();
    let p = AnnounceParams::new(infohash, peer_id, 6881);

    // no connection cached: a Connect exchange with the magic constant
    let (connect_bytes, deadline) = send_bytes(s.start_announce(p, 0));
    assert_eq!(connect_bytes.len(), 16);
    assert_eq!(be64(&connect_bytes[0..8]), 0x0000_0417_2710_1980);
    assert_eq!(be32(&connect_bytes[8..12]), ACTION_CONNECT);
    assert_eq!(deadline, 15);
    let connect_tid = be32(&connect_bytes[12..16]);

    // the response echoes the transaction id and carries the connection id
    let (announce_bytes, _d) =
        send_bytes(s.on_datagram(&connect_response(connect_tid, connection_id), 0));
    assert_eq!(announce_bytes.len(), 98);
    assert_eq!(be64(&announce_bytes[0..8]), connection_id);
    assert_eq!(be32(&announce_bytes[8..12]), ACTION_ANNOUNCE);
    assert_eq!(&announce_bytes[16..36], &infohash[..]);
    assert_eq!(&announce_bytes[36..56], &peer_id[..]);
    assert_eq!(be64(&announce_bytes[64..72]), u64::MAX); // left
    assert_eq!(be32(&announce_bytes[92..96]), u32::MAX); // num_want
    assert_eq!(&announce_bytes[96..98], &[0x1A, 0xE1]); // port 6881

    // a 20-byte payload parses into interval / leechers / seeders
    let announce_tid = be32(&announce_bytes[12..16]);
    match s.on_datagram(&announce_response(announce_tid, 1800, 4, 9), 0) {
        Step::Done { response } => {
            assert_eq!(response.transaction_id, announce_tid);
            assert_eq!(response.interval, 1800);
            assert_eq!(response.leechers, 4);
            assert_eq!(response.seeders, 9);
        }
        other => panic!("expected completion, got {:?}", other),
    }
}

#[test]
fn connection_is_reused_within_the_window() {
    let mut s = Session::new();
    let p = AnnounceParams::new([1; 20], [2; 20], 6881);

    complete_announce(&mut s, p, 0, 77);
    assert_eq!(s.connect_count, 1);

    // within the 60-second window: no second Connect exchange
    let (bytes, _d) = send_bytes(s.start_announce(p, 30));
    assert_eq!(bytes.len(), 98, "the cached connection id must be reused");
    assert_eq!(be64(&bytes[0..8]), 77);
    assert_eq!(s.connect_count, 1);
    let tid = be32(&bytes[12..16]);
    match s.on_datagram(&announce_response(tid, 60, 0, 1), 30) {
        Step::Done { .. } => {}
        other => panic!("expected completion, got {:?}", other),
    }
    assert_eq!(s.connect_count, 1);

    // at the window boundary the id is stale: a second Connect exchange
    let (bytes, _d) = send_bytes(s.start_announce(p, 60));
    assert_eq!(bytes.len(), 16, "a stale connection must be renewed");
    assert_eq!(s.connect_count, 2);
}

#[test]
fn stray_datagrams_do_not_disturb_a_pending_announce() {
    let mut s = Session::new();
    let p = AnnounceParams::new([1; 20], [2; 20], 1);
    let (connect_bytes, _d) = send_bytes(s.start_announce(p, 0));
    let tid = be32(&connect_bytes[12..16]);

    // wrong transaction id, short garbage, wrong action: all dropped
    assert_eq!(
        s.on_datagram(&connect_response(tid.wrapping_add(1), 5), 0),
        Step::Quiet
    );
    assert_eq!(s.on_datagram(&[1, 2, 3], 0), Step::Quiet);
    assert_eq!(
        s.on_datagram(&announce_response(tid, 1, 2, 3), 0),
        Step::Quiet
    );

    // the exchange still completes afterwards
    let (announce_bytes, _d) = send_bytes(s.on_datagram(&connect_response(tid, 5), 0));
    assert_eq!(announce_bytes.len(), 98);
}

#[test]
fn tracker_rejection_is_surfaced_with_its_message() {
    let mut s = Session::new();
    let p = AnnounceParams::new([1; 20], [2; 20], 1);
    let (connect_bytes, _d) = send_bytes(s.start_announce(p, 0));
    let tid = be32(&connect_bytes[12..16]);
    let mut b = Vec::new();
    b.extend_from_slice(&ACTION_ERROR.to_be_bytes());
    b.extend_from_slice(&tid.to_be_bytes());
    b.extend_from_slice(b"bad transaction");
    match s.on_datagram(&b, 0) {
        Step::Failed { error } => {
            assert_eq!(
                error,
                TrackerError::TrackerRejected(b"bad transaction".to_vec())
            );
        }
        other => panic!("expected a rejection, got {:?}", other),
    }
}

#[test]
fn connect_timeouts_surface_connect_failed() {
    let mut s = Session::new();
    let p = AnnounceParams::new([1; 20], [2; 20], 1);
    let (_bytes, mut deadline) = send_bytes(s.start_announce(p, 0));
    for _ in 1..=8 {
        let (bytes, next) = send_bytes(s.on_timer(deadline));
        assert_eq!(bytes.len(), 16, "retransmissions repeat the Connect bytes");
        deadline = next;
    }
    match s.on_timer(deadline) {
        Step::Failed { error } => assert_eq!(error, TrackerError::ConnectFailed),
        other => panic!("expected failure, got {:?}", other),
    }
}

#[test]
fn silent_announce_gets_one_renewal_then_times_out() {
    let mut s = Session::new();
    let p = AnnounceParams::new([1; 20], [2; 20], 1);

    // establish a connection and let the announce go silent
    let (connect_bytes, _d) = send_bytes(s.start_announce(p, 0));
    let tid = be32(&connect_bytes[12..16]);
    let (announce_bytes, mut deadline) = send_bytes(s.on_datagram(&connect_response(tid, 7), 0));
    assert_eq!(announce_bytes.len(), 98);
    assert_eq!(s.connect_count, 1);
    for _ in 1..=8 {
        let (bytes, next) = send_bytes(s.on_timer(deadline));
        assert_eq!(bytes.len(), 98);
        deadline = next;
    }

    // the schedule is exhausted: exactly one forced renewal, a new Connect
    let (renewal_bytes, renewal_deadline) = send_bytes(s.on_timer(deadline));
    assert_eq!(renewal_bytes.len(), 16);
    assert_eq!(s.connect_count, 2);

    // the renewed Announce goes silent too: now the failure is surfaced
    let tid = be32(&renewal_bytes[12..16]);
    let (announce_bytes, mut deadline) =
        send_bytes(s.on_datagram(&connect_response(tid, 8), renewal_deadline));
    assert_eq!(announce_bytes.len(), 98);
    assert_eq!(be64(&announce_bytes[0..8]), 8);
    for _ in 1..=8 {
        let (_bytes, next) = send_bytes(s.on_timer(deadline));
        deadline = next;
    }
    match s.on_timer(deadline) {
        Step::Failed { error } => assert_eq!(error, TrackerError::TrackerTimeout),
        other => panic!("expected a timeout, got {:?}", other),
    }
}

#[test]
fn shutdown_cancels_the_pending_exchange() {
    let mut s = Session::new();
    let p = AnnounceParams::new([1; 20], [2; 20], 1);
    send_bytes(s.start_announce(p, 0));
    match s.shutdown() {
        Step::Failed { error } => assert_eq!(error, TrackerError::Cancelled),
        other => panic!("expected cancellation, got {:?}", other),
    }
    // idle afterwards: a second shutdown has nothing to cancel
    assert_eq!(s.shutdown(), Step::Quiet);
}

#[test]
fn announce_carries_the_callers_statistics() {
    let mut s = Session::new();
    let p = AnnounceParams {
        infohash: [3; 20],
        peer_id: [4; 20],
        port: 51413,
        downloaded: 1000,
        left: 2000,
        uploaded: 3000,
        event: 1,
        ip_address: 0x7F00_0001,
        num_want: 50,
    };
    let (connect_bytes, _d) = send_bytes(s.start_announce(p, 0));
    let tid = be32(&connect_bytes[12..16]);
    let (b, _d) = send_bytes(s.on_datagram(&connect_response(tid, 6), 0));
    assert_eq!(be64(&b[56..64]), 1000);
    assert_eq!(be64(&b[64..72]), 2000);
    assert_eq!(be64(&b[72..80]), 3000);
    assert_eq!(be64(&b[80..88]), 1);
    assert_eq!(be32(&b[88..92]), 0x7F00_0001);
    assert_eq!(be32(&b[92..96]), 50);
    assert_eq!(&b[96..98], &[0xC8, 0xD5]); // port 51413
}
