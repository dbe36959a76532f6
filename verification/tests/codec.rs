use bytes::BytesMut;
use raft::codec::{frame, MessageCodec};

#[test]
fn frame_appends_crlf() {
    assert_eq!(frame(b"{\"a\":1}"), b"{\"a\":1}\r\n".to_vec());
    assert_eq!(frame(b""), b"\r\n".to_vec());
}

#[test]
fn decode_waits_for_short_buffer() {
    let mut codec = MessageCodec::new();
    let mut buf = BytesMut::from(&b"{"[..]);
    assert_eq!(codec.decode(&mut buf), None);
    assert_eq!(&buf[..], b"{");
    let mut empty = BytesMut::new();
    assert_eq!(codec.decode(&mut empty), None);
}

#[test]
fn decode_waits_for_end_mark() {
    let mut codec = MessageCodec::new();
    let mut buf = BytesMut::from(&b"{\"term\":1}\r"[..]);
    assert_eq!(codec.decode(&mut buf), None);
    assert_eq!(&buf[..], b"{\"term\":1}\r");
}

#[test]
fn decode_takes_first_frame_only() {
    let mut codec = MessageCodec::new();
    let mut buf = BytesMut::from(&b"one\r\ntwo\r\nthr"[..]);
    assert_eq!(codec.decode(&mut buf), Some(b"one".to_vec()));
    assert_eq!(&buf[..], b"two\r\nthr");
    assert_eq!(codec.decode(&mut buf), Some(b"two".to_vec()));
    assert_eq!(&buf[..], b"thr");
    assert_eq!(codec.decode(&mut buf), None);
    assert_eq!(&buf[..], b"thr");
}

#[test]
fn decode_empty_payload() {
    let mut codec = MessageCodec::new();
    let mut buf = BytesMut::from(&b"\r\nx"[..]);
    assert_eq!(codec.decode(&mut buf), Some(Vec::new()));
    assert_eq!(&buf[..], b"x");
}

#[test]
fn lone_cr_stays_in_payload() {
    let mut codec = MessageCodec::new();
    let mut buf = BytesMut::from(&b"a\r\r\n"[..]);
    assert_eq!(codec.decode(&mut buf), Some(b"a\r".to_vec()));
    assert!(buf.is_empty());
}

#[test]
fn encode_then_decode_round_trip() {
    let mut codec = MessageCodec::new();
    let mut buf = BytesMut::from(&b"pre"[..]);
    assert_eq!(codec.encode(b"{\"x\":\"y\"}", &mut buf), Ok(()));
    assert_eq!(&buf[..], b"pre{\"x\":\"y\"}\r\n");

    let mut buf = BytesMut::new();
    assert_eq!(codec.encode(b"first", &mut buf), Ok(()));
    assert_eq!(codec.encode(b"second", &mut buf), Ok(()));
    assert_eq!(codec.decode(&mut buf), Some(b"first".to_vec()));
    assert_eq!(codec.decode(&mut buf), Some(b"second".to_vec()));
    assert!(buf.is_empty());
}
