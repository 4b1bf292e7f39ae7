use rusty_merge::client::{listing, outcome, request};
use rusty_merge::protocol::{
    acknowledgement, frame, read_record, FailureKind, Request, RequestBody, Response,
    PROTOCOL_VERSION, RECORD_END,
};

#[test]
fn test_frame_appends_line_feed() {
    assert_eq!(
        frame(&b"{\"type\":\"List\"}".to_vec()),
        Some(b"{\"type\":\"List\"}\n".to_vec())
    );
    assert_eq!(frame(&Vec::new()), Some(vec![RECORD_END]));
}

#[test]
fn test_frame_refuses_record_with_line_feed() {
    assert_eq!(frame(&b"a\nb".to_vec()), None);
    assert_eq!(frame(&b"\n".to_vec()), None);
}

#[test]
fn test_read_record_stops_at_line_feed() {
    assert_eq!(read_record(&b"abc\ndef\n".to_vec()), b"abc".to_vec());
    assert_eq!(read_record(&b"abc".to_vec()), b"abc".to_vec());
    assert_eq!(read_record(&b"\nabc".to_vec()), Vec::<u8>::new());
    assert_eq!(read_record(&Vec::new()), Vec::<u8>::new());
}

#[test]
fn test_frame_then_read_gives_record_back() {
    for record in [&b"{}"[..], &b""[..], &b"{\"protocol\":1,\"body\":{\"type\":\"Quit\"}}"[..]] {
        let mut wire = frame(&record.to_vec()).unwrap();
        wire.extend_from_slice(b"next\n");
        assert_eq!(read_record(&wire), record.to_vec());
    }
}

#[test]
fn test_acknowledgement_is_ok() {
    assert_eq!(acknowledgement(), Response::Success("OK".to_string()));
}

#[test]
fn test_request_carries_version() {
    assert_eq!(
        request(RequestBody::Push("a/b/pull/1".to_string())),
        Request { protocol: PROTOCOL_VERSION, body: RequestBody::Push("a/b/pull/1".to_string()) }
    );
    assert_eq!(request(RequestBody::Quit).protocol, 1);
}

#[test]
fn test_outcome_surfaces_failures() {
    assert_eq!(outcome(Response::Failure(FailureKind::Auth)), Err(FailureKind::Auth));
    assert_eq!(
        outcome(Response::Failure(FailureKind::VersionMismatch(1))),
        Err(FailureKind::VersionMismatch(1))
    );
    assert_eq!(
        outcome(Response::Failure(FailureKind::Io("gone".to_string()))),
        Err(FailureKind::Io("gone".to_string()))
    );
    assert_eq!(
        outcome(Response::Failure(FailureKind::Unwrap("u".to_string()))),
        Err(FailureKind::Unwrap("u".to_string()))
    );
    assert_eq!(
        outcome(Response::Success("OK".to_string())),
        Ok(Response::Success("OK".to_string()))
    );
    assert_eq!(outcome(Response::List(vec![])), Ok(Response::List(vec![])));
}

#[test]
fn test_listing_renders_list_only() {
    assert_eq!(
        listing(&Response::List(vec!["a".to_string(), "b".to_string()])),
        Some("Queue: \na\nb".to_string())
    );
    assert_eq!(listing(&Response::List(vec!["a".to_string()])), Some("Queue: \na".to_string()));
    assert_eq!(listing(&Response::List(vec![])), Some("Queue: \n".to_string()));
    assert_eq!(listing(&Response::Success("OK".to_string())), None);
    assert_eq!(listing(&Response::Failure(FailureKind::Auth)), None);
}
