use udp_tracker::errors::TrackerError;
use udp_tracker::txn::{Coordinator, DispatchOutcome, TimerOutcome};
use udp_tracker::wire::{ACTION_ANNOUNCE, ACTION_CONNECT, ACTION_ERROR};

fn header(action: u32, transaction_id: u32) -> Vec<u8> {
    let mut b = Vec::new();
    b.extend_from_slice(&action.to_be_bytes());
    b.extend_from_slice(&transaction_id.to_be_bytes());
    b
}

fn announce_response_bytes(transaction_id: u32) -> Vec<u8> {
    let mut b = header(ACTION_ANNOUNCE, transaction_id);
    b.extend_from_slice(&1800u32.to_be_bytes());
    b.extend_from_slice(&5u32.to_be_bytes());
    b.extend_from_slice(&7u32.to_be_bytes());
    b
}

#[test]
fn unknown_transaction_id_is_dropped() {
    let mut c = Coordinator::new();
    c.register(7, ACTION_ANNOUNCE, vec![1, 2, 3], 0);
    let stray = announce_response_bytes(8);
    assert_eq!(c.on_datagram(&stray), DispatchOutcome::Dropped);
    // the pending transaction is unaffected and still completes
    assert!(c.contains(7));
    match c.on_datagram(&announce_response_bytes(7)) {
        DispatchOutcome::AnnounceDone {
            transaction_id,
            response,
        } => {
            assert_eq!(transaction_id, 7);
            assert_eq!(response.interval, 1800);
        }
        other => panic!("expected completion, got {:?}", other),
    }
    assert!(!c.contains(7));
}

#[test]
fn short_datagram_is_dropped() {
    let mut c = Coordinator::new();
    c.register(7, ACTION_ANNOUNCE, vec![1, 2, 3], 0);
    assert_eq!(c.on_datagram(&[0, 0, 0, 1, 0, 0, 0]), DispatchOutcome::Dropped);
    assert!(c.contains(7));
}

#[test]
fn mismatched_action_is_dropped() {
    let mut c = Coordinator::new();
    c.register(7, ACTION_ANNOUNCE, vec![1, 2, 3], 0);
    // a Connect-shaped response for an Announce transaction
    let mut b = header(ACTION_CONNECT, 7);
    b.extend_from_slice(&[0u8; 8]);
    assert_eq!(c.on_datagram(&b), DispatchOutcome::Dropped);
    assert!(c.contains(7));
}

#[test]
fn backoff_schedule_and_final_failure() {
    let request = vec![0xA5; 98];
    let mut c = Coordinator::new();
    // registered at time 0: attempt 0 waits 15 seconds
    c.register(21, ACTION_ANNOUNCE, request.clone(), 0);
    // retransmission n occurs at cumulative time 15 * (2^n - 1)
    let mut now: u64 = 15;
    for n in 1u32..=8 {
        match c.on_timer(21, now) {
            TimerOutcome::Retransmit { bytes, deadline } => {
                assert_eq!(bytes, request, "retransmission {} must repeat the bytes", n);
                let expected = 15 * (2u64.pow(n + 1) - 1);
                assert_eq!(deadline, expected, "deadline after retransmission {}", n);
                now = deadline;
            }
            other => panic!("expected retransmission {}, got {:?}", n, other),
        }
    }
    // the 9th transmission (attempt 8) was the last: the next expiry is final
    assert_eq!(now, 15 * (2u64.pow(9) - 1));
    assert_eq!(
        c.on_timer(21, now),
        TimerOutcome::Expired {
            action: ACTION_ANNOUNCE
        }
    );
    assert!(!c.contains(21));
}

#[test]
fn timer_for_unknown_id_does_nothing() {
    let mut c = Coordinator::new();
    assert_eq!(c.on_timer(3, 100), TimerOutcome::Missing);
}

#[test]
fn tracker_error_is_surfaced_not_a_framing_error() {
    let mut c = Coordinator::new();
    c.register(9, ACTION_ANNOUNCE, vec![], 0);
    let mut b = header(ACTION_ERROR, 9);
    b.extend_from_slice(b"bad transaction");
    match c.on_datagram(&b) {
        DispatchOutcome::Rejected {
            transaction_id,
            message,
        } => {
            assert_eq!(transaction_id, 9);
            assert_eq!(message, b"bad transaction".to_vec());
        }
        other => panic!("expected rejection, got {:?}", other),
    }
    assert!(!c.contains(9));
}

#[test]
fn malformed_matched_response_is_a_length_mismatch() {
    let mut c = Coordinator::new();
    c.register(4, ACTION_CONNECT, vec![], 0);
    // correct header, but a Connect response must be exactly 16 bytes
    let mut b = header(ACTION_CONNECT, 4);
    b.extend_from_slice(&[0u8; 4]);
    assert_eq!(
        c.on_datagram(&b),
        DispatchOutcome::Malformed {
            transaction_id: 4,
            error: TrackerError::LengthMismatch
        }
    );
}

#[test]
fn cancellation_removes_the_transaction() {
    let mut c = Coordinator::new();
    c.register(11, ACTION_CONNECT, vec![1], 0);
    assert!(c.cancel(11));
    assert!(!c.contains(11));
    assert!(!c.cancel(11));
    // a late reply for the cancelled transaction is now a stray
    let mut b = header(ACTION_CONNECT, 11);
    b.extend_from_slice(&[0u8; 8]);
    assert_eq!(c.on_datagram(&b), DispatchOutcome::Dropped);
}

#[test]
fn fresh_ids_avoid_in_flight_ones() {
    let mut c = Coordinator::new();
    c.register(0, ACTION_CONNECT, vec![], 0);
    c.register(1, ACTION_ANNOUNCE, vec![], 0);
    for _ in 0..32 {
        let id = c.fresh_transaction_id();
        assert!(!c.contains(id));
        assert_ne!(id, 0);
        assert_ne!(id, 1);
    }
}
