use udp_tracker::errors::TrackerError;
use udp_tracker::wire::{
    Action, ConnectRequest, ConnectResponse, ErrorResponse, Request, Response, ACTION_ANNOUNCE,
    ACTION_CONNECT, ACTION_ERROR, ACTION_SCRAPE, PROTOCOL_MAGIC,
};

fn sample_request() -> Request {
    Request {
        connection_id: 0x1122_3344_5566_7788,
        action: ACTION_ANNOUNCE,
        transaction_id: 0xDEAD_BEEF,
        infohash: [0xAB; 20],
        peer_id: [0x7F; 20],
        downloaded: 123_456_789,
        left: u64::MAX,
        uploaded: 42,
        event: 2,
        ip_address: 0x0A00_0001,
        num_want: u32::MAX,
        port: 6881,
    }
}

#[test]
fn round_trip_connect_request() {
    let m = ConnectRequest::new(0xCAFE_BABE);
    let bytes = m.serialize();
    let (back, rest) = ConnectRequest::deserialize(&bytes).unwrap();
    assert_eq!(back, m);
    assert!(rest.is_empty());
}

#[test]
fn round_trip_connect_response() {
    let m = ConnectResponse {
        action: ACTION_CONNECT,
        transaction_id: 7,
        connection_id: 0x1122_3344_5566_7788,
    };
    let bytes = m.serialize();
    let (back, rest) = ConnectResponse::deserialize(&bytes).unwrap();
    assert_eq!(back, m);
    assert!(rest.is_empty());
}

#[test]
fn round_trip_announce_request() {
    let m = sample_request();
    let bytes = m.serialize();
    let (back, rest) = Request::deserialize(&bytes).unwrap();
    assert_eq!(back, m);
    assert!(rest.is_empty());
}

#[test]
fn round_trip_announce_response() {
    let m = Response {
        action: ACTION_ANNOUNCE,
        transaction_id: 99,
        interval: 1800,
        leechers: 12,
        seeders: 345,
    };
    let bytes = m.serialize();
    let (back, rest) = Response::deserialize(&bytes).unwrap();
    assert_eq!(back, m);
    assert!(rest.is_empty());
}

#[test]
fn round_trip_error_response() {
    let m = ErrorResponse {
        action: ACTION_ERROR,
        transaction_id: 5,
        message: b"bad transaction".to_vec(),
    };
    let bytes = m.serialize();
    let back = ErrorResponse::deserialize(&bytes).unwrap();
    assert_eq!(back, m);
}

#[test]
fn connect_request_layout_is_big_endian() {
    let m = ConnectRequest::new(0xDEAD_BEEF);
    let bytes = m.serialize();
    assert_eq!(bytes.len(), 16);
    // magic constant 0x0000041727101980, action 0, transaction id
    let expected: Vec<u8> = vec![
        0x00, 0x00, 0x04, 0x17, 0x27, 0x10, 0x19, 0x80, 0x00, 0x00, 0x00, 0x00, 0xDE, 0xAD,
        0xBE, 0xEF,
    ];
    assert_eq!(bytes, expected);
    assert_eq!(m.connection_id, PROTOCOL_MAGIC);
}

#[test]
fn announce_request_layout_is_big_endian() {
    let m = sample_request();
    let bytes = m.serialize();
    assert_eq!(bytes.len(), 98);
    assert_eq!(&bytes[0..8], &[0x11, 0x22, 0x33, 0x44, 0x55, 0x66, 0x77, 0x88]);
    assert_eq!(&bytes[8..12], &[0x00, 0x00, 0x00, 0x01]);
    assert_eq!(&bytes[12..16], &[0xDE, 0xAD, 0xBE, 0xEF]);
    assert_eq!(&bytes[16..36], &[0xAB; 20][..]);
    assert_eq!(&bytes[36..56], &[0x7F; 20][..]);
    assert_eq!(&bytes[64..72], &[0xFF; 8][..]); // left = u64::MAX
    assert_eq!(&bytes[92..96], &[0xFF, 0xFF, 0xFF, 0xFF]); // num_want = u32::MAX
    assert_eq!(&bytes[96..98], &[0x1A, 0xE1]); // port 6881
}

#[test]
fn connect_decode_rejects_wrong_lengths() {
    assert_eq!(
        ConnectRequest::deserialize(&[0u8; 15]),
        Err(TrackerError::LengthMismatch)
    );
    assert_eq!(
        ConnectRequest::deserialize(&[0u8; 17]),
        Err(TrackerError::LengthMismatch)
    );
    assert_eq!(
        ConnectResponse::deserialize(&[0u8; 15]),
        Err(TrackerError::LengthMismatch)
    );
    assert_eq!(
        ConnectResponse::deserialize(&[0u8; 17]),
        Err(TrackerError::LengthMismatch)
    );
}

#[test]
fn announce_decode_rejects_wrong_lengths() {
    assert_eq!(
        Request::deserialize(&[0u8; 97]),
        Err(TrackerError::LengthMismatch)
    );
    assert_eq!(
        Request::deserialize(&[0u8; 99]),
        Err(TrackerError::LengthMismatch)
    );
    assert_eq!(
        Response::deserialize(&[0u8; 19]),
        Err(TrackerError::LengthMismatch)
    );
    assert_eq!(
        ErrorResponse::deserialize(&[0u8; 7]),
        Err(TrackerError::LengthMismatch)
    );
}

#[test]
fn announce_response_keeps_peer_list_as_rest() {
    let mut bytes = Response {
        action: ACTION_ANNOUNCE,
        transaction_id: 1,
        interval: 60,
        leechers: 2,
        seeders: 3,
    }
    .serialize();
    // six extra bytes standing for one compact peer entry
    bytes.extend_from_slice(&[1, 2, 3, 4, 0x1A, 0xE1]);
    let (m, rest) = Response::deserialize(&bytes).unwrap();
    assert_eq!(m.interval, 60);
    assert_eq!(rest, &[1, 2, 3, 4, 0x1A, 0xE1]);
}

#[test]
fn action_codes() {
    assert_eq!(Action::Connect.code(), ACTION_CONNECT);
    assert_eq!(Action::Announce.code(), ACTION_ANNOUNCE);
    assert_eq!(Action::Scrape.code(), ACTION_SCRAPE);
    assert_eq!(Action::Error.code(), ACTION_ERROR);
    assert_eq!(Action::from_code(0), Some(Action::Connect));
    assert_eq!(Action::from_code(1), Some(Action::Announce));
    assert_eq!(Action::from_code(2), Some(Action::Scrape));
    assert_eq!(Action::from_code(3), Some(Action::Error));
    assert_eq!(Action::from_code(4), None);
}

#[test]
fn request_new_uses_protocol_defaults() {
    let m = Request::new(0x1122_3344_5566_7788, [9; 20], [8; 20], 6969);
    assert_eq!(m.connection_id, 0x1122_3344_5566_7788);
    assert_eq!(m.action, ACTION_ANNOUNCE);
    assert_eq!(m.infohash, [9; 20]);
    assert_eq!(m.peer_id, [8; 20]);
    assert_eq!(m.downloaded, 0);
    assert_eq!(m.left, u64::MAX);
    assert_eq!(m.uploaded, 0);
    assert_eq!(m.event, 0);
    assert_eq!(m.ip_address, 0);
    assert_eq!(m.num_want, u32::MAX);
    assert_eq!(m.port, 6969);
}
