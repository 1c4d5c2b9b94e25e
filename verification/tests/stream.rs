use aether_proxy::protocol::{Frame, MsgType, END_STREAM, GZIP_COMPRESSED};
use aether_proxy::tunnel::stream_handler::{
    error_frame, split_chunk, text_payload, Phase, StreamEvent, StreamHandler, FRAME_SEND_TIMEOUT_SECS,
    MAX_CHUNK_SIZE,
};
use bytes::Bytes;
use std::io::Write;

fn gz(data: &[u8]) -> Vec<u8> {
    let mut enc = flate2::write::GzEncoder::new(Vec::new(), flate2::Compression::fast());
    enc.write_all(data).unwrap();
    enc.finish().unwrap()
}

fn body(id: u32, flags: u8, data: &[u8]) -> StreamEvent {
    StreamEvent::Frame(Frame::new(id, MsgType::RequestBody, flags, Bytes::copy_from_slice(data)))
}

fn kinds(frames: &[Frame]) -> Vec<MsgType> {
    frames.iter().map(|f| f.msg_type).collect()
}

#[test]
fn chunk_of_exactly_32_kib_is_one_frame() {
    assert_eq!(MAX_CHUNK_SIZE, 32 * 1024);
    let chunk = Bytes::from(vec![1u8; MAX_CHUNK_SIZE]);
    let frames = split_chunk(9, &chunk);
    assert_eq!(frames.len(), 1);
    assert_eq!(frames[0].payload, chunk);
    assert_eq!(frames[0].stream_id, 9);
    assert_eq!(frames[0].msg_type, MsgType::ResponseBody);
    assert_eq!(frames[0].flags, 0);
}

#[test]
fn chunk_of_32_kib_and_a_byte_is_two_frames() {
    let data: Vec<u8> = (0..MAX_CHUNK_SIZE + 1).map(|i| (i % 251) as u8).collect();
    let frames = split_chunk(9, &Bytes::from(data.clone()));
    assert_eq!(frames.len(), 2);
    assert_eq!(frames[0].payload.as_ref(), &data[..MAX_CHUNK_SIZE]);
    assert_eq!(frames[1].payload.as_ref(), &data[MAX_CHUNK_SIZE..]);
}

#[test]
fn slices_are_in_order_and_cover_the_chunk() {
    let data: Vec<u8> = (0..3 * MAX_CHUNK_SIZE + 100).map(|i| (i % 253) as u8).collect();
    let frames = split_chunk(1, &Bytes::from(data.clone()));
    assert_eq!(frames.len(), 4);
    let mut joined = Vec::new();
    for f in &frames {
        assert!(f.payload.len() <= MAX_CHUNK_SIZE);
        assert_eq!(f.msg_type, MsgType::ResponseBody);
        joined.extend_from_slice(&f.payload);
    }
    assert_eq!(joined, data);
    assert_eq!(split_chunk(1, &Bytes::from(vec![0u8; 2 * MAX_CHUNK_SIZE])).len(), 2);
}

#[test]
fn empty_chunk_is_one_empty_frame() {
    let frames = split_chunk(1, &Bytes::new());
    assert_eq!(frames.len(), 1);
    assert!(frames[0].payload.is_empty());
}

#[test]
fn error_frame_carries_the_message() {
    let f = error_frame(4, "target blocked: port 22 not in allowed list");
    assert_eq!(f.stream_id, 4);
    assert_eq!(f.msg_type, MsgType::StreamError);
    assert_eq!(f.flags, 0);
    assert_eq!(f.payload.as_ref(), b"target blocked: port 22 not in allowed list");
    assert_eq!(text_payload("héllo").as_ref(), "héllo".as_bytes());
}

#[test]
fn happy_get() {
    // stream 7, no body, END_STREAM on an empty RequestBody
    let mut h = StreamHandler::new(7);
    assert_eq!(h.phase(), Phase::Body);
    assert!(h.handle(body(7, END_STREAM, b"")).is_empty());
    assert_eq!(h.phase(), Phase::Request);
    assert!(h.take_body().is_empty());
    let mut sent = Vec::new();
    sent.extend(h.handle(StreamEvent::Head(Bytes::from_static(b"{\"status\":200,\"headers\":[]}"))));
    assert_eq!(h.phase(), Phase::Response);
    sent.extend(h.handle(StreamEvent::Chunk(Bytes::from(vec![1u8; 40_000]))));
    sent.extend(h.handle(StreamEvent::Chunk(Bytes::from(vec![2u8; 10]))));
    sent.extend(h.handle(StreamEvent::End));
    assert_eq!(h.phase(), Phase::Done);
    assert_eq!(
        kinds(&sent),
        vec![
            MsgType::ResponseHeaders,
            MsgType::ResponseBody,
            MsgType::ResponseBody,
            MsgType::ResponseBody,
            MsgType::StreamEnd
        ]
    );
    assert!(sent.iter().all(|f| f.stream_id == 7));
    assert_eq!(sent[0].payload.as_ref(), b"{\"status\":200,\"headers\":[]}");
    let total: usize = sent.iter().filter(|f| f.msg_type == MsgType::ResponseBody).map(|f| f.payload.len()).sum();
    assert_eq!(total, 40_010);
    let last = sent.last().unwrap();
    assert_eq!(last.flags, END_STREAM);
    assert!(last.payload.is_empty());
    // nothing follows the last word
    assert!(h.handle(StreamEvent::Chunk(Bytes::from_static(b"late"))).is_empty());
    assert!(h.handle(StreamEvent::Failed("late".to_string())).is_empty());
    assert!(h.handle(StreamEvent::End).is_empty());
    assert_eq!(h.phase(), Phase::Done);
}

#[test]
fn body_parts_are_joined_in_arrival_order() {
    let mut h = StreamHandler::new(3);
    assert!(h.handle(body(3, 0, b"abc")).is_empty());
    assert!(h.handle(body(3, 0, b"")).is_empty());
    assert!(h.handle(body(3, GZIP_COMPRESSED, &gz(b"DEF"))).is_empty());
    assert_eq!(h.phase(), Phase::Body);
    assert!(h.handle(body(3, END_STREAM, b"ghi")).is_empty());
    assert_eq!(h.phase(), Phase::Request);
    assert_eq!(h.take_body().as_ref(), b"abcDEFghi");
    assert!(h.take_body().is_empty());
}

#[test]
fn single_part_body_is_handed_out_as_it_is() {
    let mut h = StreamHandler::new(3);
    h.handle(body(3, END_STREAM, b"only"));
    assert_eq!(h.take_body().as_ref(), b"only");
}

#[test]
fn stream_end_completes_the_body() {
    let mut h = StreamHandler::new(3);
    h.handle(body(3, 0, b"abc"));
    let end = Frame::new(3, MsgType::StreamEnd, END_STREAM, Bytes::new());
    assert!(h.handle(StreamEvent::Frame(end)).is_empty());
    assert_eq!(h.phase(), Phase::Request);
    assert_eq!(h.take_body().as_ref(), b"abc");
}

#[test]
fn peer_cancel_is_not_answered() {
    let mut h = StreamHandler::new(3);
    let cancel = Frame::new(3, MsgType::StreamError, 0, Bytes::from_static(b"cancelled"));
    assert!(h.handle(StreamEvent::Frame(cancel)).is_empty());
    assert_eq!(h.phase(), Phase::Dropped);
    assert!(h.handle(StreamEvent::Failed("x".to_string())).is_empty());
    assert!(h.handle(StreamEvent::Head(Bytes::new())).is_empty());
    assert_eq!(h.phase(), Phase::Dropped);
}

#[test]
fn dropped_stream_sends_nothing() {
    let mut h = StreamHandler::new(3);
    assert!(h.handle(StreamEvent::Disconnected).is_empty());
    assert_eq!(h.phase(), Phase::Dropped);
    // once the body is complete the closing of the channel means nothing
    let mut h = StreamHandler::new(3);
    h.handle(body(3, END_STREAM, b""));
    assert!(h.handle(StreamEvent::Disconnected).is_empty());
    assert_eq!(h.phase(), Phase::Request);
}

#[test]
fn corrupt_body_is_answered_with_one_error() {
    let mut h = StreamHandler::new(5);
    let sent = h.handle(body(5, GZIP_COMPRESSED, b"not gzip at all"));
    assert_eq!(kinds(&sent), vec![MsgType::StreamError]);
    assert_eq!(sent[0].stream_id, 5);
    assert!(sent[0].payload.starts_with(b"gzip decompress failed: "));
    assert_eq!(h.phase(), Phase::Done);
    assert!(h.handle(body(5, END_STREAM, b"more")).is_empty());
}

#[test]
fn failure_before_the_response_is_one_error() {
    let mut h = StreamHandler::new(5);
    h.handle(body(5, END_STREAM, b""));
    let sent = h.handle(StreamEvent::Failed("target blocked: port 22 not in allowed list".to_string()));
    assert_eq!(kinds(&sent), vec![MsgType::StreamError]);
    assert_eq!(sent[0].payload.as_ref(), b"target blocked: port 22 not in allowed list");
    assert_eq!(sent[0].flags, 0);
    assert_eq!(h.phase(), Phase::Done);
    assert!(h.handle(StreamEvent::Head(Bytes::new())).is_empty());
}

#[test]
fn failure_in_the_response_body_is_one_error() {
    let mut h = StreamHandler::new(5);
    h.handle(body(5, END_STREAM, b""));
    let mut sent = h.handle(StreamEvent::Head(Bytes::from_static(b"{}")));
    sent.extend(h.handle(StreamEvent::Chunk(Bytes::from_static(b"part"))));
    sent.extend(h.handle(StreamEvent::Failed("body read error: reset".to_string())));
    sent.extend(h.handle(StreamEvent::End));
    assert_eq!(kinds(&sent), vec![MsgType::ResponseHeaders, MsgType::ResponseBody, MsgType::StreamError]);
    assert_eq!(h.phase(), Phase::Done);
}

#[test]
fn congested_writer_abandons_the_stream() {
    let mut h = StreamHandler::new(5);
    h.handle(body(5, END_STREAM, b""));
    h.handle(StreamEvent::Head(Bytes::from_static(b"{}")));
    assert!(h.handle(StreamEvent::Congested).is_empty());
    assert_eq!(h.phase(), Phase::Dropped);
    assert!(h.handle(StreamEvent::Chunk(Bytes::from_static(b"x"))).is_empty());
    assert!(h.handle(StreamEvent::End).is_empty());
    assert_eq!(FRAME_SEND_TIMEOUT_SECS, 30);
}

#[test]
fn events_out_of_place_are_ignored() {
    let mut h = StreamHandler::new(5);
    // no response before the request is complete
    assert!(h.handle(StreamEvent::Head(Bytes::from_static(b"{}"))).is_empty());
    assert!(h.handle(StreamEvent::Chunk(Bytes::from_static(b"x"))).is_empty());
    assert!(h.handle(StreamEvent::End).is_empty());
    let ping = Frame::new(5, MsgType::Ping, 0, Bytes::new());
    assert!(h.handle(StreamEvent::Frame(ping)).is_empty());
    assert_eq!(h.phase(), Phase::Body);
    h.handle(body(5, END_STREAM, b"x"));
    // no body frame before the headers
    assert!(h.handle(StreamEvent::Chunk(Bytes::from_static(b"x"))).is_empty());
    assert!(h.handle(StreamEvent::End).is_empty());
    // a late request body is not added
    assert!(h.handle(body(5, 0, b"late")).is_empty());
    assert_eq!(h.phase(), Phase::Request);
    assert_eq!(h.take_body().as_ref(), b"x");
    h.handle(StreamEvent::Head(Bytes::from_static(b"{}")));
    // headers go out once
    assert!(h.handle(StreamEvent::Head(Bytes::from_static(b"{}"))).is_empty());
    assert_eq!(h.stream_id(), 5);
}

#[test]
fn any_course_keeps_the_frames_in_order() {
    // every sequence of five events over a small alphabet
    let alphabet = 7u32;
    for code in 0..alphabet.pow(5) {
        let mut h = StreamHandler::new(1);
        let mut sent: Vec<MsgType> = Vec::new();
        let mut c = code;
        for _ in 0..5 {
            let ev = match c % alphabet {
                0 => body(1, 0, b"a"),
                1 => body(1, END_STREAM, b""),
                2 => StreamEvent::Head(Bytes::from_static(b"{}")),
                3 => StreamEvent::Chunk(Bytes::from_static(b"x")),
                4 => StreamEvent::End,
                5 => StreamEvent::Failed("f".to_string()),
                _ => StreamEvent::Congested,
            };
            c /= alphabet;
            sent.extend(kinds(&h.handle(ev)));
        }
        let last_words = sent.iter().filter(|t| matches!(t, MsgType::StreamEnd | MsgType::StreamError)).count();
        assert!(last_words <= 1);
        assert_eq!(last_words == 1, h.phase() == Phase::Done);
        if last_words == 1 {
            assert!(matches!(sent.last().unwrap(), MsgType::StreamEnd | MsgType::StreamError));
        }
        if let Some(i) = sent.iter().position(|t| *t == MsgType::ResponseBody) {
            assert!(i > 0);
            assert_eq!(sent[0], MsgType::ResponseHeaders);
        }
        assert!(sent.iter().filter(|t| **t == MsgType::ResponseHeaders).count() <= 1);
    }
}
