use aether_proxy::gzip::GzipError;
use aether_proxy::protocol::{Frame, MsgType, ProtocolError, END_STREAM, GZIP_COMPRESSED};
use aether_proxy::tunnel::dispatcher::{
    is_stale, stale_deadline, Admission, Discarded, Dispatcher, Incoming, Route, BODY_CHANNEL_CAPACITY,
    DEFAULT_MAX_STREAMS, DRAIN_TIMEOUT_SECS, MAX_MESSAGE_SIZE, PRUNE_INTERVAL,
};
use aether_proxy::tunnel::writer::{Writer, WriterAction, WriterEvent, WRITER_CHANNEL_CAPACITY, WRITER_SHUTDOWN_TIMEOUT_SECS};
use bytes::Bytes;
use std::io::Write;

fn gz(data: &[u8]) -> Vec<u8> {
    let mut enc = flate2::write::GzEncoder::new(Vec::new(), flate2::Compression::fast());
    enc.write_all(data).unwrap();
    enc.finish().unwrap()
}

fn frame(id: u32, ty: MsgType, flags: u8, data: &[u8]) -> Frame {
    Frame::new(id, ty, flags, Bytes::copy_from_slice(data))
}

fn open(d: &mut Dispatcher, id: u32) -> Admission {
    let routed = d.on_frame(frame(id, MsgType::RequestHeaders, 0, b"{}"), 0);
    assert!(matches!(routed.route, Route::Request { .. }));
    d.open_stream(id, Ok(()), 0)
}

#[test]
fn constants() {
    assert_eq!(MAX_MESSAGE_SIZE, 64 << 20);
    assert_eq!(BODY_CHANNEL_CAPACITY, 64);
    assert_eq!(PRUNE_INTERVAL, 64);
    assert_eq!(DRAIN_TIMEOUT_SECS, 30);
    assert_eq!(DEFAULT_MAX_STREAMS, 128);
    assert_eq!(WRITER_CHANNEL_CAPACITY, 256);
    assert!(WRITER_SHUTDOWN_TIMEOUT_SECS >= 35);
}

#[test]
fn message_at_the_ceiling_is_accepted_and_one_byte_more_is_not() {
    assert!(Dispatcher::accepts_len(MAX_MESSAGE_SIZE));
    assert!(!Dispatcher::accepts_len(MAX_MESSAGE_SIZE + 1));
    assert!(Dispatcher::accepts_len(0));

    let mut d = Dispatcher::new(4);
    assert!(matches!(open(&mut d, 1), Admission::Spawn { .. }));
    // a RequestBody frame that makes a message of exactly 64 MiB
    let f = Frame::new(1, MsgType::RequestBody, 0, Bytes::from(vec![0u8; MAX_MESSAGE_SIZE - 10]));
    let wire = f.encode();
    assert_eq!(wire.len(), MAX_MESSAGE_SIZE);
    match d.on_message(Incoming::Binary(wire), 1).route {
        Route::Body { frame, last } => {
            assert_eq!(frame.payload.len(), MAX_MESSAGE_SIZE - 10);
            assert!(!last);
        }
        other => panic!("unexpected route {other:?}"),
    }
    // one byte larger
    let f = Frame::new(1, MsgType::RequestBody, 0, Bytes::from(vec![0u8; MAX_MESSAGE_SIZE - 9]));
    let routed = d.on_message(Incoming::Binary(f.encode()), 1);
    assert!(matches!(routed.route, Route::Discard(Discarded::TooLarge(n)) if n == MAX_MESSAGE_SIZE + 1));
    assert!(!routed.prune);
    assert!(d.is_live(1));
}

#[test]
fn stream_cap() {
    let cap = 3usize;
    let mut d = Dispatcher::new(cap);
    for id in 1..=cap as u32 {
        assert!(matches!(open(&mut d, id), Admission::Spawn { .. }));
        assert!(d.is_live(id));
    }
    assert_eq!(d.live_streams(), cap);
    // one more is answered at once with an error and does not become live
    match open(&mut d, 99) {
        Admission::Reject(f) => {
            assert_eq!(f.stream_id, 99);
            assert_eq!(f.msg_type, MsgType::StreamError);
            assert_eq!(f.flags, 0);
            assert_eq!(f.payload.as_ref(), b"max concurrent streams reached");
        }
        Admission::Spawn { .. } => panic!("the cap was reached"),
    }
    assert!(!d.is_live(99));
    assert_eq!(d.live_streams(), cap);
    // at the cap even a live id is refused
    assert!(matches!(open(&mut d, 1), Admission::Reject(_)));
    // a stream that ended makes room
    d.on_frame(frame(2, MsgType::RequestBody, END_STREAM, b""), 0);
    assert_eq!(d.live_streams(), cap - 1);
    assert!(matches!(open(&mut d, 99), Admission::Spawn { .. }));
    assert_eq!(d.live_streams(), cap);
}

#[test]
fn live_streams_never_exceed_the_cap() {
    let mut d = Dispatcher::new(5);
    let mut x: u32 = 12345;
    for _ in 0..5000 {
        x = x.wrapping_mul(1664525).wrapping_add(1013904223);
        let id = (x >> 8) % 9;
        match (x >> 28) % 4 {
            0 | 1 => {
                let _ = open(&mut d, id);
            }
            2 => {
                d.on_frame(frame(id, MsgType::RequestBody, ((x >> 5) & 1) as u8, b"x"), 0);
            }
            _ => {
                d.on_frame(frame(id, MsgType::StreamEnd, END_STREAM, b""), 0);
            }
        }
        assert!(d.live_streams() <= 5);
    }
}

#[test]
fn zero_cap_refuses_every_stream() {
    let mut d = Dispatcher::new(0);
    assert!(matches!(open(&mut d, 1), Admission::Reject(_)));
    assert_eq!(d.live_streams(), 0);
}

#[test]
fn unparsable_metadata_is_refused() {
    let mut d = Dispatcher::new(4);
    match d.open_stream(8, Err("expected value at line 1 column 1".to_string()), 0) {
        Admission::Reject(f) => {
            assert_eq!(f.stream_id, 8);
            assert_eq!(f.msg_type, MsgType::StreamError);
            assert_eq!(f.payload.as_ref(), b"invalid request metadata: expected value at line 1 column 1");
        }
        Admission::Spawn { .. } => panic!("the metadata did not parse"),
    }
    assert_eq!(d.live_streams(), 0);
}

#[test]
fn request_headers_are_decompressed() {
    let mut d = Dispatcher::new(4);
    let routed = d.on_frame(frame(5, MsgType::RequestHeaders, GZIP_COMPRESSED, &gz(b"{\"method\":\"GET\"}")), 0);
    match routed.route {
        Route::Request { stream_id, payload } => {
            assert_eq!(stream_id, 5);
            assert_eq!(payload.as_ref(), b"{\"method\":\"GET\"}");
        }
        other => panic!("unexpected route {other:?}"),
    }
    assert!(!routed.prune);
    assert_eq!(d.live_streams(), 0);
    let routed = d.on_frame(frame(5, MsgType::RequestHeaders, GZIP_COMPRESSED, b"junk"), 0);
    assert!(matches!(routed.route, Route::Discard(Discarded::BadCompression(GzipError::Invalid(_)))));
}

#[test]
fn body_frames_follow_their_stream() {
    let mut d = Dispatcher::new(4);
    open(&mut d, 1);
    match d.on_frame(frame(1, MsgType::RequestBody, 0, b"abc"), 1).route {
        Route::Body { frame, last } => {
            assert_eq!(frame.payload.as_ref(), b"abc");
            assert!(!last);
        }
        other => panic!("unexpected route {other:?}"),
    }
    assert!(d.is_live(1));
    match d.on_frame(frame(1, MsgType::RequestBody, END_STREAM, b"def"), 1).route {
        Route::Body { frame, last } => {
            assert_eq!(frame.payload.as_ref(), b"def");
            assert!(last);
        }
        other => panic!("unexpected route {other:?}"),
    }
    assert!(!d.is_live(1));
    // a body frame without a stream goes nowhere
    assert!(matches!(d.on_frame(frame(1, MsgType::RequestBody, 0, b"x"), 1).route, Route::Ignore));
    assert!(matches!(d.on_frame(frame(2, MsgType::RequestBody, END_STREAM, b"x"), 1).route, Route::Ignore));
}

#[test]
fn peer_end_and_cancel_drop_the_stream() {
    let mut d = Dispatcher::new(4);
    open(&mut d, 1);
    open(&mut d, 2);
    assert!(matches!(
        d.on_frame(frame(1, MsgType::StreamEnd, END_STREAM, b""), 2).route,
        Route::Close { stream_id: 1 }
    ));
    assert!(matches!(
        d.on_frame(frame(2, MsgType::StreamError, 0, b"cancel"), 2).route,
        Route::Close { stream_id: 2 }
    ));
    assert_eq!(d.live_streams(), 0);
    assert!(matches!(d.on_frame(frame(2, MsgType::StreamError, 0, b""), 2).route, Route::Ignore));
}

#[test]
fn control_frames() {
    let mut d = Dispatcher::new(4);
    match d.on_frame(frame(0, MsgType::Ping, 0, b"t=1"), 0).route {
        Route::Reply(pong) => {
            assert_eq!(pong.stream_id, 0);
            assert_eq!(pong.msg_type, MsgType::Pong);
            assert_eq!(pong.flags, 0);
            assert_eq!(pong.payload.as_ref(), b"t=1");
        }
        other => panic!("unexpected route {other:?}"),
    }
    match d.on_frame(frame(0, MsgType::HeartbeatAck, 0, b"{\"config_version\":5}"), 0).route {
        Route::Ack(p) => assert_eq!(p.as_ref(), b"{\"config_version\":5}"),
        other => panic!("unexpected route {other:?}"),
    }
    assert!(matches!(d.on_frame(frame(0, MsgType::GoAway, 0, b""), 0).route, Route::Exit));
    for ty in [MsgType::Pong, MsgType::HeartbeatData, MsgType::ResponseHeaders, MsgType::ResponseBody] {
        assert!(matches!(d.on_frame(frame(0, ty, 0, b""), 0).route, Route::Ignore));
    }
}

#[test]
fn transport_messages() {
    let mut d = Dispatcher::new(4);
    assert!(matches!(d.on_message(Incoming::Close, 0).route, Route::Exit));
    assert!(matches!(d.on_message(Incoming::Other, 0).route, Route::Ignore));
    let r = d.on_message(Incoming::Binary(Bytes::from_static(b"short")), 0);
    assert!(matches!(
        r.route,
        Route::Discard(Discarded::Malformed(ProtocolError::TooShort { expected: 10, actual: 5 }))
    ));
    let r = d.on_message(Incoming::Binary(Bytes::from(vec![0, 0, 0, 1, 0x7f, 0, 0, 0, 0, 0])), 0);
    assert!(matches!(r.route, Route::Discard(Discarded::Malformed(ProtocolError::UnknownMsgType(0x7f)))));
    let ping = frame(0, MsgType::Ping, 0, b"x").encode();
    assert!(matches!(d.on_message(Incoming::Binary(ping), 0).route, Route::Reply(_)));
}

#[test]
fn handlers_are_pruned_every_64_frames() {
    let mut d = Dispatcher::new(1000);
    for i in 1..=200u32 {
        let routed = d.on_frame(frame(0, MsgType::Ping, 0, b""), 0);
        assert_eq!(routed.prune, i % 64 == 0, "frame {i}");
    }
    // frames that are discarded, refused or end the loop do not count
    let mut d = Dispatcher::new(1000);
    for _ in 0..63 {
        d.on_frame(frame(0, MsgType::Ping, 0, b""), 0);
    }
    assert!(!d.on_message(Incoming::Binary(Bytes::from_static(b"junk")), 0).prune);
    assert!(!d.on_message(Incoming::Other, 0).prune);
    assert!(!d.on_frame(frame(0, MsgType::GoAway, 0, b""), 0).prune);
    assert!(!d.on_frame(frame(1, MsgType::RequestHeaders, 0, b"{}"), 0).prune);
    assert!(matches!(d.open_stream(1, Err("bad".to_string()), 0), Admission::Reject(_)));
    // the 64th counted frame is the new stream
    assert!(matches!(d.open_stream(1, Ok(()), 0), Admission::Spawn { prune: true }));
    assert!(matches!(d.open_stream(2, Ok(()), 1), Admission::Spawn { prune: false }));
}

#[test]
fn handlers_are_pruned_when_they_outnumber_the_cap() {
    let mut d = Dispatcher::new(2);
    assert!(!d.on_frame(frame(0, MsgType::Ping, 0, b""), 2).prune);
    assert!(d.on_frame(frame(0, MsgType::Ping, 0, b""), 3).prune);
    // with the new handler there are three
    assert!(matches!(d.open_stream(1, Ok(()), 2), Admission::Spawn { prune: true }));
    assert!(matches!(d.open_stream(2, Ok(()), 0), Admission::Spawn { prune: false }));
}

#[test]
fn clear_forgets_every_stream() {
    let mut d = Dispatcher::new(4);
    open(&mut d, 1);
    open(&mut d, 2);
    d.clear();
    assert_eq!(d.live_streams(), 0);
    assert!(!d.is_live(1));
}

#[test]
fn stale_tunnel() {
    // stale timeout of 45 s, last message at t = 10 s
    assert_eq!(stale_deadline(10_000, 45), 55_000);
    assert!(!is_stale(10_000, 10_000, 45));
    assert!(!is_stale(54_999, 10_000, 45));
    assert!(is_stale(55_000, 10_000, 45));
    // silence for the timeout and a second
    assert!(is_stale(10_000 + 46_000, 10_000, 45));
    // any message moves the deadline
    assert!(!is_stale(56_000, 50_000, 45));
    assert_eq!(stale_deadline(u64::MAX - 1, 45), u64::MAX);
    assert_eq!(stale_deadline(5, 0), 5);
    assert!(is_stale(5, 5, 0));
}

#[test]
fn writer_sends_frames_in_queue_order() {
    let mut w = Writer::new();
    let mut sent: Vec<Bytes> = Vec::new();
    let mut want: Vec<Bytes> = Vec::new();
    for i in 0..50u32 {
        let f = frame(i, MsgType::ResponseBody, 0, &i.to_be_bytes());
        want.push(f.encode());
        if i % 7 == 0 {
            assert!(matches!(w.step(WriterEvent::Tick), WriterAction::Ping));
        }
        match w.step(WriterEvent::Frame(f)) {
            WriterAction::Binary(b) => sent.push(b),
            other => panic!("unexpected action {other:?}"),
        }
    }
    assert_eq!(sent, want);
    assert!(w.is_running());
}

#[test]
fn writer_ends_when_the_queue_closes() {
    let mut w = Writer::new();
    assert!(matches!(w.step(WriterEvent::Closed), WriterAction::Close));
    assert!(!w.is_running());
    assert!(matches!(w.step(WriterEvent::Frame(frame(1, MsgType::Ping, 0, b""))), WriterAction::Idle));
    assert!(matches!(w.step(WriterEvent::Tick), WriterAction::Idle));
    assert!(matches!(w.step(WriterEvent::Closed), WriterAction::Idle));
}

#[test]
fn writer_ends_when_the_sink_fails() {
    let mut w = Writer::new();
    assert!(matches!(w.step(WriterEvent::Tick), WriterAction::Ping));
    assert!(matches!(w.step(WriterEvent::SendFailed), WriterAction::Close));
    assert!(!w.is_running());
    assert!(matches!(w.step(WriterEvent::Tick), WriterAction::Idle));
}
