//! Binary frame protocol for tunnel multiplexing.
//!
//! A frame is a 10-byte big-endian header followed by the payload:
//! `stream_id (4) | msg_type (1) | flags (1) | payload_len (4) | payload`.

use crate::buffer;
use crate::buffer::contents;
use bytes::Bytes;
use vstd::prelude::*;

verus! {

pub const HEADER_SIZE: usize = 10;

/// Flag bit: the last frame of a stream in its direction.
pub const END_STREAM: u8 = 0x01;

/// Flag bit: the payload is gzip-compressed.
pub const GZIP_COMPRESSED: u8 = 0x02;

/// Message types of the tunnel protocol.
#[derive(Debug, Clone, Copy, PartialEq, Eq, Structural)]
pub enum MsgType {
    RequestHeaders,
    RequestBody,
    ResponseHeaders,
    ResponseBody,
    StreamEnd,
    StreamError,
    Ping,
    Pong,
    GoAway,
    HeartbeatData,
    HeartbeatAck,
}

impl MsgType {
    /// The wire code of a message type.
    pub open spec fn code(self) -> u8 {
        match self {
            MsgType::RequestHeaders => 0x01,
            MsgType::RequestBody => 0x02,
            MsgType::ResponseHeaders => 0x03,
            MsgType::ResponseBody => 0x04,
            MsgType::StreamEnd => 0x05,
            MsgType::StreamError => 0x06,
            MsgType::Ping => 0x10,
            MsgType::Pong => 0x11,
            MsgType::GoAway => 0x12,
            MsgType::HeartbeatData => 0x13,
            MsgType::HeartbeatAck => 0x14,
        }
    }

    /// The message type with wire code `v`, if there is one.
    pub open spec fn of_code(v: u8) -> Option<MsgType> {
        if v == 0x01 {
            Some(MsgType::RequestHeaders)
        } else if v == 0x02 {
            Some(MsgType::RequestBody)
        } else if v == 0x03 {
            Some(MsgType::ResponseHeaders)
        } else if v == 0x04 {
            Some(MsgType::ResponseBody)
        } else if v == 0x05 {
            Some(MsgType::StreamEnd)
        } else if v == 0x06 {
            Some(MsgType::StreamError)
        } else if v == 0x10 {
            Some(MsgType::Ping)
        } else if v == 0x11 {
            Some(MsgType::Pong)
        } else if v == 0x12 {
            Some(MsgType::GoAway)
        } else if v == 0x13 {
            Some(MsgType::HeartbeatData)
        } else if v == 0x14 {
            Some(MsgType::HeartbeatAck)
        } else {
            None
        }
    }

    pub fn from_u8(v: u8) -> (r: Option<MsgType>)
        ensures
            r == MsgType::of_code(v),
            r is Some ==> r->Some_0.code() == v,
    {
        match v {
            0x01 => Some(MsgType::RequestHeaders),
            0x02 => Some(MsgType::RequestBody),
            0x03 => Some(MsgType::ResponseHeaders),
            0x04 => Some(MsgType::ResponseBody),
            0x05 => Some(MsgType::StreamEnd),
            0x06 => Some(MsgType::StreamError),
            0x10 => Some(MsgType::Ping),
            0x11 => Some(MsgType::Pong),
            0x12 => Some(MsgType::GoAway),
            0x13 => Some(MsgType::HeartbeatData),
            0x14 => Some(MsgType::HeartbeatAck),
            _ => None,
        }
    }

    pub fn to_u8(self) -> (v: u8)
        ensures
            v == self.code(),
            MsgType::of_code(v) == Some(self),
    {
        match self {
            MsgType::RequestHeaders => 0x01,
            MsgType::RequestBody => 0x02,
            MsgType::ResponseHeaders => 0x03,
            MsgType::ResponseBody => 0x04,
            MsgType::StreamEnd => 0x05,
            MsgType::StreamError => 0x06,
            MsgType::Ping => 0x10,
            MsgType::Pong => 0x11,
            MsgType::GoAway => 0x12,
            MsgType::HeartbeatData => 0x13,
            MsgType::HeartbeatAck => 0x14,
        }
    }
}


/// The four bytes of `x`, most significant first.
pub open spec fn be32(x: u32) -> Seq<u8> {
    seq![
        (x / 0x100_0000) as u8,
        (x / 0x1_0000 % 0x100) as u8,
        (x / 0x100 % 0x100) as u8,
        (x % 0x100) as u8,
    ]
}

/// The number whose big-endian bytes are `b0 b1 b2 b3`.
pub open spec fn from_be32(b0: u8, b1: u8, b2: u8, b3: u8) -> u32 {
    (b0 * 0x100_0000 + b1 * 0x1_0000 + b2 * 0x100 + b3) as u32
}

/// Appends the big-endian bytes of `x` to `buf`.
fn put_u32(buf: &mut Vec<u8>, x: u32)
    ensures
        final(buf)@ == old(buf)@ + be32(x),
{
    buf.push((x / 0x100_0000) as u8);
    buf.push((x / 0x1_0000 % 0x100) as u8);
    buf.push((x / 0x100 % 0x100) as u8);
    buf.push((x % 0x100) as u8);
    assert(buf@ =~= old(buf)@ + be32(x));
}

/// Reads a big-endian number from `data[at..at + 4]`.
fn get_u32(data: &[u8], at: usize) -> (x: u32)
    requires
        at + 4 <= data@.len(),
    ensures
        x == from_be32(data@[at as int], data@[at + 1], data@[at + 2], data@[at + 3]),
{
    let b0: u32 = data[at] as u32;
    let b1: u32 = data[at + 1] as u32;
    let b2: u32 = data[at + 2] as u32;
    let b3: u32 = data[at + 3] as u32;
    b0 * 0x100_0000 + b1 * 0x1_0000 + b2 * 0x100 + b3
}

/// What a frame is: its header fields and the bytes of its payload.
pub struct FrameView {
    pub stream_id: u32,
    pub msg_type: MsgType,
    pub flags: u8,
    pub payload: Seq<u8>,
}

/// A single multiplexed frame.
#[derive(Debug, Clone)]
pub struct Frame {
    pub stream_id: u32,
    pub msg_type: MsgType,
    pub flags: u8,
    pub payload: Bytes,
}

impl View for Frame {
    type V = FrameView;

    open spec fn view(&self) -> FrameView {
        FrameView {
            stream_id: self.stream_id,
            msg_type: self.msg_type,
            flags: self.flags,
            payload: contents(self.payload),
        }
    }
}

/// Why a buffer is not a frame.
#[derive(Debug, Clone, Copy, PartialEq, Eq, Structural)]
pub enum ProtocolError {
    /// Fewer bytes than a header.
    TooShort { expected: u64, actual: u64 },
    /// The header announces more payload than the buffer holds.
    Incomplete { expected: u64, actual: u64 },
    /// The header's message type is none of the protocol's.
    UnknownMsgType(u8),
}

/// The payload length as the header carries it: the low 32 bits.
pub open spec fn wire_len(payload: Seq<u8>) -> u32 {
    (payload.len() % 0x1_0000_0000) as u32
}

/// The wire form of a frame.
pub open spec fn encoded(f: FrameView) -> Seq<u8> {
    be32(f.stream_id) + seq![f.msg_type.code(), f.flags] + be32(wire_len(f.payload)) + f.payload
}

/// The payload length that the header in `data` announces.
pub open spec fn declared_len(data: Seq<u8>) -> u32
    recommends
        data.len() >= HEADER_SIZE,
{
    from_be32(data[6], data[7], data[8], data[9])
}

/// The frame that `data` starts with, or why there is none. Bytes behind the
/// announced payload are not part of the frame.
pub open spec fn decoded(data: Seq<u8>) -> Result<FrameView, ProtocolError> {
    if data.len() < HEADER_SIZE {
        Err(ProtocolError::TooShort { expected: HEADER_SIZE as u64, actual: data.len() as u64 })
    } else if data.len() - HEADER_SIZE < declared_len(data) {
        Err(
            ProtocolError::Incomplete {
                expected: (HEADER_SIZE + declared_len(data)) as u64,
                actual: data.len() as u64,
            },
        )
    } else {
        match MsgType::of_code(data[4]) {
            None => Err(ProtocolError::UnknownMsgType(data[4])),
            Some(t) => Ok(
                FrameView {
                    stream_id: from_be32(data[0], data[1], data[2], data[3]),
                    msg_type: t,
                    flags: data[5],
                    payload: data.subrange(HEADER_SIZE as int, HEADER_SIZE + declared_len(data)),
                },
            ),
        }
    }
}

/// Reading back the big-endian bytes of a number gives the number.
pub proof fn lemma_be32_roundtrip(x: u32)
    ensures
        be32(x).len() == 4,
        from_be32(be32(x)[0], be32(x)[1], be32(x)[2], be32(x)[3]) == x,
{
}

/// Decoding the wire form of a frame gives the frame back, for every frame
/// whose payload length fits the header's 32-bit field.
pub proof fn lemma_decode_encode(f: FrameView)
    requires
        f.payload.len() <= u32::MAX,
    ensures
        decoded(encoded(f)) == Ok::<FrameView, ProtocolError>(f),
{
    let data = encoded(f);
    lemma_be32_roundtrip(f.stream_id);
    lemma_be32_roundtrip(wire_len(f.payload));
    assert(data.len() == HEADER_SIZE + f.payload.len());
    assert(data[4] == f.msg_type.code());
    assert(data[5] == f.flags);
    assert(declared_len(data) == f.payload.len());
    assert(data.subrange(HEADER_SIZE as int, HEADER_SIZE + declared_len(data)) =~= f.payload);
    assert(MsgType::of_code(f.msg_type.code()) == Some(f.msg_type));
}

impl Frame {
    pub fn new(stream_id: u32, msg_type: MsgType, flags: u8, payload: Bytes) -> (f: Frame)
        ensures
            f.stream_id == stream_id,
            f.msg_type == msg_type,
            f.flags == flags,
            f.payload == payload,
    {
        Frame { stream_id, msg_type, flags, payload }
    }

    /// Control frame: stream 0, no flags.
    pub fn control(msg_type: MsgType, payload: Bytes) -> (f: Frame)
        ensures
            f.stream_id == 0,
            f.msg_type == msg_type,
            f.flags == 0,
            f.payload == payload,
    {
        Frame::new(0, msg_type, 0, payload)
    }

    pub open spec fn spec_is_end_stream(&self) -> bool {
        self.flags & END_STREAM != 0
    }

    pub open spec fn spec_is_gzip(&self) -> bool {
        self.flags & GZIP_COMPRESSED != 0
    }

    #[verifier::when_used_as_spec(spec_is_end_stream)]
    pub fn is_end_stream(&self) -> (r: bool)
        ensures
            r == self.spec_is_end_stream(),
    {
        self.flags & END_STREAM != 0
    }

    #[verifier::when_used_as_spec(spec_is_gzip)]
    pub fn is_gzip(&self) -> (r: bool)
        ensures
            r == self.spec_is_gzip(),
    {
        self.flags & GZIP_COMPRESSED != 0
    }

    /// Encode into a binary buffer.
    pub fn encode(&self) -> (out: Bytes)
        ensures
            contents(out) == encoded(self@),
    {
        let payload = buffer::as_slice(&self.payload);
        let mut buf: Vec<u8> = Vec::new();
        put_u32(&mut buf, self.stream_id);
        buf.push(self.msg_type.to_u8());
        buf.push(self.flags);
        let len: u32 = (payload.len() as u64 % 0x1_0000_0000) as u32;
        put_u32(&mut buf, len);
        buf.extend_from_slice(payload);
        assert(buf@ =~= encoded(self@));
        buffer::from_vec(buf)
    }

    /// Decode from a binary buffer.
    pub fn decode(data: Bytes) -> (r: Result<Frame, ProtocolError>)
        ensures
            match decoded(contents(data)) {
                Ok(v) => r is Ok && r->Ok_0@ == v,
                Err(e) => r == Err::<Frame, ProtocolError>(e),
            },
    {
        let bytes = buffer::as_slice(&data);
        if bytes.len() < HEADER_SIZE {
            return Err(
                ProtocolError::TooShort { expected: HEADER_SIZE as u64, actual: bytes.len() as u64 },
            );
        }
        let stream_id = get_u32(bytes, 0);
        let msg_type_raw = bytes[4];
        let frame_flags = bytes[5];
        let payload_len = get_u32(bytes, 6);
        if ((bytes.len() - HEADER_SIZE) as u64) < payload_len as u64 {
            return Err(
                ProtocolError::Incomplete {
                    expected: HEADER_SIZE as u64 + payload_len as u64,
                    actual: bytes.len() as u64,
                },
            );
        }
        match MsgType::from_u8(msg_type_raw) {
            None => Err(ProtocolError::UnknownMsgType(msg_type_raw)),
            Some(msg_type) => {
                let payload = buffer::slice(&data, HEADER_SIZE, HEADER_SIZE + payload_len as usize);
                Ok(Frame { stream_id, msg_type, flags: frame_flags, payload })
            },
        }
    }
}


/// What a header list says.
pub open spec fn header_views(headers: Seq<(String, String)>) -> Seq<(Seq<char>, Seq<char>)> {
    Seq::new(headers.len(), |i: int| (headers[i].0@, headers[i].1@))
}

/// The timeout of a request that names none, in seconds.
pub fn default_timeout() -> (secs: u64)
    ensures
        secs == 60,
{
    60
}

/// The payload of a `RequestHeaders` frame. Of several headers with one
/// name, the sender's last one is the one that arrives.
#[derive(Debug, Clone)]
pub struct RequestMeta {
    pub method: String,
    pub url: String,
    pub headers: Vec<(String, String)>,
    /// Seconds that the whole upstream exchange may take.
    pub timeout: u64,
}

/// The payload of a `ResponseHeaders` frame.
#[derive(Debug, Clone)]
pub struct ResponseMeta {
    pub status: u16,
    /// Header list preserving duplicates (e.g. several Set-Cookie).
    pub headers: Vec<(String, String)>,
}

impl RequestMeta {
    /// A request with the default timeout where `timeout` is absent.
    pub fn new(method: String, url: String, headers: Vec<(String, String)>, timeout: Option<u64>)
        -> (m: RequestMeta)
        ensures
            m.method == method,
            m.url == url,
            m.headers == headers,
            m.timeout == (match timeout {
                Some(t) => t,
                None => 60,
            }),
    {
        RequestMeta {
            method,
            url,
            headers,
            timeout: match timeout {
                Some(t) => t,
                None => default_timeout(),
            },
        }
    }
}

} // verus!
