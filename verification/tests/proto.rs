use bytes::BytesMut;
use sprinkler_api::{
    compose_message, compose_message_at, HeaderPoll, RelayAction, SprinklerProto,
    SprinklerProtoHeader, MAX_TIMESTAMP, MIN_TIMESTAMP,
};

fn proto_with(bytes: &[u8]) -> SprinklerProto<()> {
    let mut p = SprinklerProto::new(());
    p.read_buffer.extend_from_slice(bytes);
    p
}

#[test]
fn frame_layout() {
    let f = compose_message_at(0x0102, 0x0a0b0c0d0e0f1011, String::from("hi"));
    assert_eq!(
        &f[..],
        &[0x01, 0x02, 0x0a, 0x0b, 0x0c, 0x0d, 0x0e, 0x0f, 0x10, 0x11, 0x00, 0x02, b'h', b'i'][..]
    );
}

#[test]
fn frame_truncates_the_sender_id() {
    let f = compose_message_at(0x1_0005, 0, String::from("x"));
    assert_eq!(&f[..2], &[0x00, 0x05][..]);
}

#[test]
fn frame_of_negative_timestamp() {
    let f = compose_message_at(1, -2, String::from("x"));
    assert_eq!(&f[2..10], &[0xff, 0xff, 0xff, 0xff, 0xff, 0xff, 0xff, 0xfe][..]);
}

#[test]
fn frame_length_counts_utf8_bytes() {
    let f = compose_message_at(1, 0, String::from("é€"));
    assert_eq!(&f[10..12], &[0x00, 0x05][..]);
    assert_eq!(&f[12..], "é€".as_bytes());
}

#[test]
fn largest_frame() {
    let body = "a".repeat(500);
    let f = compose_message_at(3, 5, body.clone());
    assert_eq!(f.len(), 512);
    assert_eq!(&f[10..12], &[0x01, 0xf4][..]);
}

#[test]
fn compose_message_stamps_current_time() {
    let before = std::time::SystemTime::now()
        .duration_since(std::time::UNIX_EPOCH)
        .unwrap()
        .as_secs() as i64;
    let f = compose_message(9, String::from("COMMCHK"));
    let after = std::time::SystemTime::now()
        .duration_since(std::time::UNIX_EPOCH)
        .unwrap()
        .as_secs() as i64;
    assert_eq!(&f[..2], &[0x00, 0x09][..]);
    let mut ts = [0u8; 8];
    ts.copy_from_slice(&f[2..10]);
    let ts = i64::from_be_bytes(ts);
    assert!(before <= ts && ts <= after);
    assert_eq!(&f[10..12], &[0x00, 0x07][..]);
    assert_eq!(&f[12..], b"COMMCHK");
}

#[test]
fn header_round_trip() {
    let f = compose_message_at(42, 1_700_000_000, String::from("hello"));
    let mut p = proto_with(&f);
    let h = p.next_header(false);
    assert_eq!(
        h,
        HeaderPoll::Ready(Some(SprinklerProtoHeader { id: 42, timestamp: 1_700_000_000, len: 5 }))
    );
    assert_eq!(&p.read_buffer[..], b"hello");
}

#[test]
fn negative_timestamp_round_trip() {
    let f = compose_message_at(7, -123_456, String::from("z"));
    let mut p = proto_with(&f);
    assert_eq!(
        p.next_header(true),
        HeaderPoll::Ready(Some(SprinklerProtoHeader { id: 7, timestamp: -123_456, len: 1 }))
    );
}

#[test]
fn header_waits_for_more_than_twelve_bytes() {
    let f = compose_message_at(1, 2, String::from("ab"));
    let mut p = proto_with(&f[..12]);
    assert_eq!(p.next_header(false), HeaderPoll::NotReady);
    assert_eq!(p.read_buffer.len(), 12);
    assert_eq!(p.next_header(true), HeaderPoll::Ready(None));
    assert_eq!(p.read_buffer.len(), 12);
    let mut empty = SprinklerProto::new(());
    assert_eq!(empty.next_header(false), HeaderPoll::NotReady);
    assert_eq!(empty.next_header(true), HeaderPoll::Ready(None));
}

#[test]
fn relay_delivers_what_was_composed() {
    let f = compose_message_at(513, 99, String::from("COMMCHK"));
    let mut p = proto_with(&f);
    let h = match p.next_header(false) {
        HeaderPoll::Ready(Some(h)) => h,
        other => panic!("unexpected {:?}", other),
    };
    match p.relay_action(&h, false) {
        RelayAction::Deliver { id, timestamp, body } => {
            assert_eq!(id, 513);
            assert_eq!(timestamp, 99);
            assert_eq!(body, "COMMCHK");
        }
        other => panic!("unexpected {:?}", other),
    }
}

#[test]
fn relay_decodes_everything_held() {
    let header = SprinklerProtoHeader { id: 2, timestamp: 0, len: 2 };
    let p = proto_with(b"abcd");
    match p.relay_action(&header, false) {
        RelayAction::Deliver { id, body, .. } => {
            assert_eq!(id, 2);
            assert_eq!(body, "abcd");
        }
        other => panic!("unexpected {:?}", other),
    }
}

#[test]
fn relay_drops_invalid_utf8() {
    let header = SprinklerProtoHeader { id: 2, timestamp: 0, len: 2 };
    let p = proto_with(&[0xff, 0xfe]);
    assert!(matches!(p.relay_action(&header, false), RelayAction::Undecodable));
}

#[test]
fn relay_waits_for_the_body() {
    let header = SprinklerProtoHeader { id: 2, timestamp: 0, len: 5 };
    let p = proto_with(b"abc");
    assert!(matches!(p.relay_action(&header, false), RelayAction::NotReady));
    assert!(matches!(p.relay_action(&header, true), RelayAction::Lost));
}

#[test]
fn relay_of_empty_body() {
    let header = SprinklerProtoHeader { id: 0, timestamp: 0, len: 0 };
    let p: SprinklerProto<()> = SprinklerProto::new(());
    match p.relay_action(&header, true) {
        RelayAction::Deliver { id, body, .. } => {
            assert_eq!(id, 0);
            assert_eq!(body, "");
        }
        other => panic!("unexpected {:?}", other),
    }
}

#[test]
fn new_proto_keeps_its_socket() {
    let p = SprinklerProto::new(17u32);
    assert_eq!(p.socket, 17);
    assert_eq!(p.read_buffer, BytesMut::new());
}

#[test]
fn relay_drops_unrepresentable_timestamp() {
    let f = compose_message_at(4, i64::MAX, String::from("late"));
    let mut p = proto_with(&f);
    let h = match p.next_header(false) {
        HeaderPoll::Ready(Some(h)) => h,
        other => panic!("unexpected {:?}", other),
    };
    assert_eq!(h.timestamp, i64::MAX);
    assert!(matches!(p.relay_action(&h, false), RelayAction::OutOfRange));
    let early = SprinklerProtoHeader { id: 4, timestamp: i64::MIN, len: 0 };
    assert!(matches!(p.relay_action(&early, false), RelayAction::OutOfRange));
}

#[test]
fn relay_timestamp_bounds() {
    for &(ts, ok) in [
        (MAX_TIMESTAMP, true),
        (MAX_TIMESTAMP + 1, false),
        (MIN_TIMESTAMP, true),
        (MIN_TIMESTAMP - 1, false),
        (0, true),
    ]
    .iter()
    {
        let header = SprinklerProtoHeader { id: 3, timestamp: ts, len: 1 };
        let p = proto_with(b"ok");
        match p.relay_action(&header, false) {
            RelayAction::Deliver { id, timestamp, body } => {
                assert!(ok, "{} delivered", ts);
                assert_eq!((id, timestamp, body.as_str()), (3, ts, "ok"));
            }
            RelayAction::OutOfRange => assert!(!ok, "{} dropped", ts),
            other => panic!("unexpected {:?}", other),
        }
    }
}

#[test]
fn composed_message_is_delivered() {
    let f = compose_message(12, String::from("COMMCHK"));
    let mut p = proto_with(&f);
    let h = match p.next_header(true) {
        HeaderPoll::Ready(Some(h)) => h,
        other => panic!("unexpected {:?}", other),
    };
    match p.relay_action(&h, true) {
        RelayAction::Deliver { id, body, .. } => {
            assert_eq!(id, 12);
            assert_eq!(body, "COMMCHK");
        }
        other => panic!("unexpected {:?}", other),
    }
}
