//! Per-stream request handler: what one stream does with each thing that
//! happens to it, and which frames it sends back.

use crate::buffer;
use crate::buffer::contents;
use crate::gzip;
use crate::gzip::{GzipError, Inflated};
use crate::protocol::{Frame, FrameView, MsgType, END_STREAM};
use crate::text;
use bytes::Bytes;
use vstd::prelude::*;

verus! {

/// Maximum response body chunk size per frame (32 KiB).
pub const MAX_CHUNK_SIZE: usize = 32768;

/// Seconds that a frame may wait for the writer before the stream is
/// abandoned.
pub const FRAME_SEND_TIMEOUT_SECS: u64 = 30;

/// The number of body frames that carry a chunk of `len` bytes: one for an
/// empty chunk, else as many as slices of 32 KiB are needed.
pub open spec fn slice_count(len: nat) -> nat {
    if len == 0 {
        1
    } else {
        ((len + MAX_CHUNK_SIZE - 1) / (MAX_CHUNK_SIZE as int)) as nat
    }
}

/// The `i`-th slice of `data`.
pub open spec fn slice_at(data: Seq<u8>, i: int) -> Seq<u8> {
    data.subrange(
        i * MAX_CHUNK_SIZE,
        if (i + 1) * MAX_CHUNK_SIZE < data.len() {
            (i + 1) * MAX_CHUNK_SIZE
        } else {
            data.len() as int
        },
    )
}

/// Whether `frames` are the body frames of stream `stream_id` for `chunk`:
/// the chunk's slices in order, none larger than 32 KiB.
pub open spec fn is_sliced(frames: Seq<Frame>, stream_id: u32, chunk: Seq<u8>) -> bool {
    &&& frames.len() == slice_count(chunk.len())
    &&& forall|i: int|
        0 <= i < frames.len() ==> (#[trigger] frames[i])@ == (FrameView {
            stream_id,
            msg_type: MsgType::ResponseBody,
            flags: 0,
            payload: slice_at(chunk, i),
        })
}

/// The body frames for one chunk of an upstream response. A chunk larger
/// than 32 KiB is sliced; the slices share the chunk's storage.
pub fn split_chunk(stream_id: u32, chunk: &Bytes) -> (frames: Vec<Frame>)
    ensures
        is_sliced(frames@, stream_id, contents(*chunk)),
        forall|i: int|
            0 <= i < frames@.len() ==> (#[trigger] frames@[i])@.payload.len() <= MAX_CHUNK_SIZE,
{
    let len = buffer::as_slice(chunk).len();
    let mut frames: Vec<Frame> = Vec::new();
    if len <= MAX_CHUNK_SIZE {
        frames.push(Frame::new(stream_id, MsgType::ResponseBody, 0, chunk.clone()));
        assert(contents(*chunk) =~= slice_at(contents(*chunk), 0));
        return frames;
    }
    let mut offset: usize = 0;
    while offset < len
        invariant
            len == contents(*chunk).len(),
            len > MAX_CHUNK_SIZE,
            offset <= len,
            offset < len ==> offset == frames@.len() * MAX_CHUNK_SIZE,
            offset == len ==> frames@.len() == slice_count(len as nat),
            forall|i: int|
                0 <= i < frames@.len() ==> (#[trigger] frames@[i])@ == (FrameView {
                    stream_id,
                    msg_type: MsgType::ResponseBody,
                    flags: 0,
                    payload: slice_at(contents(*chunk), i),
                }) && frames@[i]@.payload.len() <= MAX_CHUNK_SIZE,
        decreases len - offset,
    {
        let end = if len - offset > MAX_CHUNK_SIZE {
            offset + MAX_CHUNK_SIZE
        } else {
            len
        };
        let part = buffer::slice(chunk, offset, end);
        frames.push(Frame::new(stream_id, MsgType::ResponseBody, 0, part));
        offset = end;
    }
    frames
}

/// The bytes of `parts` one behind the other.
pub open spec fn joined(parts: Seq<Bytes>) -> Seq<u8>
    decreases parts.len(),
{
    if parts.len() == 0 {
        Seq::empty()
    } else {
        joined(parts.drop_last()) + contents(parts.last())
    }
}

/// Where a stream stands.
#[derive(Debug, Clone, Copy, PartialEq, Eq, Structural)]
pub enum Phase {
    /// The request body is still arriving.
    Body,
    /// The request is complete; nothing has been sent back yet.
    Request,
    /// The response headers have been sent; body frames may follow.
    Response,
    /// The stream has sent its last frame, `StreamEnd` or `StreamError`.
    Done,
    /// The stream was cancelled or abandoned: it sends nothing more, and has
    /// sent no last frame.
    Dropped,
}

/// Something that happens to a stream.
#[derive(Debug, Clone)]
pub enum StreamEvent {
    /// A frame that the dispatcher routed to the stream.
    Frame(Frame),
    /// The dispatcher dropped the stream before the body was complete.
    Disconnected,
    /// The request cannot be served; the message goes to the peer.
    Failed(String),
    /// The upstream answered; the serialized response metadata.
    Head(Bytes),
    /// A piece of the upstream response body.
    Chunk(Bytes),
    /// The upstream response body is complete.
    End,
    /// The writer did not take a frame in time, or is gone.
    Congested,
}

/// What an event means to the stream's course.
pub enum Signal {
    /// A piece of the request body, the last one if `end`.
    Part { end: bool },
    /// A compressed piece of the request body that cannot be accepted.
    Corrupt,
    /// The peer ends the request body.
    BodyEnd,
    /// The peer cancels the stream.
    Cancel,
    /// The dispatcher dropped the stream.
    Disconnected,
    /// A frame that means nothing to a stream.
    Noise,
    Failed,
    Head,
    /// A response chunk that takes so many frames.
    Chunk { frames: nat },
    End,
    Congested,
}

/// What `event` means.
pub open spec fn signal_of(event: StreamEvent) -> Signal {
    match event {
        StreamEvent::Frame(f) => match f.msg_type {
            MsgType::RequestBody => match gzip::plain_payload(f@) {
                Inflated::Data(_) => Signal::Part { end: f.is_end_stream() },
                _ => Signal::Corrupt,
            },
            MsgType::StreamEnd => Signal::BodyEnd,
            MsgType::StreamError => Signal::Cancel,
            _ => Signal::Noise,
        },
        StreamEvent::Disconnected => Signal::Disconnected,
        StreamEvent::Failed(_) => Signal::Failed,
        StreamEvent::Head(_) => Signal::Head,
        StreamEvent::Chunk(c) => Signal::Chunk { frames: slice_count(contents(c).len()) },
        StreamEvent::End => Signal::End,
        StreamEvent::Congested => Signal::Congested,
    }
}

/// `n` times `t`.
pub open spec fn repeat(t: MsgType, n: nat) -> Seq<MsgType> {
    Seq::new(n, |i: int| t)
}

/// The phase that follows `phase` on `signal`, and the types of the frames
/// that the stream sends on the way.
pub open spec fn advance(phase: Phase, signal: Signal) -> (Phase, Seq<MsgType>) {
    match (phase, signal) {
        (Phase::Body, Signal::Part { end }) => (
            if end {
                Phase::Request
            } else {
                Phase::Body
            },
            seq![],
        ),
        (Phase::Body, Signal::BodyEnd) => (Phase::Request, seq![]),
        (Phase::Body, Signal::Corrupt) => (Phase::Done, seq![MsgType::StreamError]),
        (Phase::Body, Signal::Cancel) => (Phase::Dropped, seq![]),
        (Phase::Body, Signal::Disconnected) => (Phase::Dropped, seq![]),
        (Phase::Request, Signal::Head) => (Phase::Response, seq![MsgType::ResponseHeaders]),
        (Phase::Response, Signal::Chunk { frames }) => (
            Phase::Response,
            repeat(MsgType::ResponseBody, frames),
        ),
        (Phase::Response, Signal::End) => (Phase::Done, seq![MsgType::StreamEnd]),
        (Phase::Body, Signal::Failed) => (Phase::Done, seq![MsgType::StreamError]),
        (Phase::Request, Signal::Failed) => (Phase::Done, seq![MsgType::StreamError]),
        (Phase::Response, Signal::Failed) => (Phase::Done, seq![MsgType::StreamError]),
        (Phase::Body, Signal::Congested) => (Phase::Dropped, seq![]),
        (Phase::Request, Signal::Congested) => (Phase::Dropped, seq![]),
        (Phase::Response, Signal::Congested) => (Phase::Dropped, seq![]),
        _ => (phase, seq![]),
    }
}

/// The phase after `signals`, from `phase` on, and the types of all frames
/// sent on the way.
pub open spec fn course(phase: Phase, signals: Seq<Signal>) -> (Phase, Seq<MsgType>)
    decreases signals.len(),
{
    if signals.len() == 0 {
        (phase, seq![])
    } else {
        let before = course(phase, signals.drop_last());
        let step = advance(before.0, signals.last());
        (step.0, before.1 + step.1)
    }
}

/// A frame type that ends a stream.
pub open spec fn is_last_word(t: MsgType) -> bool {
    t == MsgType::StreamEnd || t == MsgType::StreamError
}

/// Whether the frames sent so far, by type, are in order for a stream in
/// `phase`: every body frame stands behind the headers, which come first;
/// a last word stands last, and there is one exactly if the stream is done.
pub open spec fn in_order(phase: Phase, sent: Seq<MsgType>) -> bool {
    &&& forall|i: int|
        0 <= i < sent.len() && #[trigger] sent[i] == MsgType::ResponseBody ==> 0 < i && sent[0]
            == MsgType::ResponseHeaders
    &&& forall|i: int|
        0 <= i < sent.len() && sent[i] == MsgType::ResponseHeaders ==> i == 0
    &&& forall|i: int| 0 <= i < sent.len() && is_last_word(#[trigger] sent[i]) ==> i == sent.len() - 1
    &&& phase == Phase::Done <==> sent.len() > 0 && is_last_word(sent.last())
    &&& (phase == Phase::Body || phase == Phase::Request) ==> sent.len() == 0
    &&& phase == Phase::Response ==> sent.len() > 0 && sent[0] == MsgType::ResponseHeaders
}

/// One step keeps the frames sent in order.
pub proof fn lemma_advance_in_order(phase: Phase, sent: Seq<MsgType>, signal: Signal)
    requires
        in_order(phase, sent),
    ensures
        in_order(advance(phase, signal).0, sent + advance(phase, signal).1),
{
    let next = advance(phase, signal);
    let all = sent + next.1;
    if next.1.len() == 0 {
        assert(all =~= sent);
    } else {
        assert(phase != Phase::Done && phase != Phase::Dropped);
        assert forall|i: int| 0 <= i < all.len() implies (if i < sent.len() {
            all[i] == sent[i]
        } else {
            all[i] == next.1[i - sent.len()]
        }) by {}
    }
}

/// Whatever happens to a stream, in whatever order: the response headers
/// precede every response body frame, nothing follows a `StreamEnd` or
/// `StreamError`, and the stream has sent exactly one of the two once it is
/// done, none while it runs or after it was cancelled or abandoned.
pub proof fn lemma_stream_in_order(signals: Seq<Signal>)
    ensures
        in_order(course(Phase::Body, signals).0, course(Phase::Body, signals).1),
    decreases signals.len(),
{
    if signals.len() > 0 {
        lemma_stream_in_order(signals.drop_last());
        let before = course(Phase::Body, signals.drop_last());
        lemma_advance_in_order(before.0, before.1, signals.last());
    }
}


/// The types of `frames`, in order.
pub open spec fn types_of(frames: Seq<Frame>) -> Seq<MsgType> {
    Seq::new(frames.len(), |i: int| frames[i].msg_type)
}

/// The frame of stream `stream_id` that carries `text` in UTF-8.
pub open spec fn text_frame(stream_id: u32, msg_type: MsgType, text: Seq<char>) -> FrameView {
    FrameView { stream_id, msg_type, flags: 0, payload: vstd::utf8::encode_utf8(text) }
}

/// A buffer that holds `msg` in UTF-8.
pub fn text_payload(msg: &str) -> (b: Bytes)
    ensures
        contents(b) == vstd::utf8::encode_utf8(msg@),
{
    buffer::from_vec(msg.as_bytes_vec())
}

/// The `StreamError` frame that tells the peer why a stream failed.
pub fn error_frame(stream_id: u32, msg: &str) -> (f: Frame)
    ensures
        f@ == text_frame(stream_id, MsgType::StreamError, msg@),
{
    Frame::new(stream_id, MsgType::StreamError, 0, text_payload(msg))
}

/// One stream of a tunnel: the request body gathered so far and the phase
/// that decides what the stream may still send.
#[derive(Debug)]
pub struct StreamHandler {
    stream_id: u32,
    phase: Phase,
    parts: Vec<Bytes>,
}

impl StreamHandler {
    pub closed spec fn id(&self) -> u32 {
        self.stream_id
    }

    pub closed spec fn spec_phase(&self) -> Phase {
        self.phase
    }

    /// The request body gathered so far.
    pub closed spec fn body(&self) -> Seq<u8> {
        joined(self.parts@)
    }

    /// A stream that waits for its request body.
    pub fn new(stream_id: u32) -> (h: StreamHandler)
        ensures
            h.id() == stream_id,
            h.phase() == Phase::Body,
            h.body() == Seq::<u8>::empty(),
    {
        StreamHandler { stream_id, phase: Phase::Body, parts: Vec::new() }
    }

    #[verifier::when_used_as_spec(spec_phase)]
    pub fn phase(&self) -> (p: Phase)
        ensures
            p == self.spec_phase(),
    {
        self.phase
    }

    pub fn stream_id(&self) -> (id: u32)
        ensures
            id == self.id(),
    {
        self.stream_id
    }

    /// The body that `event` leaves, where the stream had gathered `body`
    /// in `phase`: a piece of the body, decompressed, is added while the
    /// body is arriving.
    pub open spec fn body_after(phase: Phase, body: Seq<u8>, event: StreamEvent) -> Seq<u8> {
        match event {
            StreamEvent::Frame(f) => if phase == Phase::Body && f.msg_type == MsgType::RequestBody {
                match gzip::plain_payload(f@) {
                    Inflated::Data(p) => body + p,
                    _ => body,
                }
            } else {
                body
            },
            _ => body,
        }
    }

    /// What the frames sent on `event` hold, where their types are those of
    /// `advance`.
    pub open spec fn holds(stream_id: u32, phase: Phase, event: StreamEvent, frames: Seq<Frame>)
        -> bool {
        if phase == Phase::Done || phase == Phase::Dropped {
            true
        } else {
            match event {
                StreamEvent::Failed(msg) => frames[0]@ == text_frame(
                    stream_id,
                    MsgType::StreamError,
                    msg@,
                ),
                StreamEvent::Head(meta) => phase == Phase::Request ==> frames[0]@ == (FrameView {
                    stream_id,
                    msg_type: MsgType::ResponseHeaders,
                    flags: 0,
                    payload: contents(meta),
                }),
                StreamEvent::Chunk(chunk) => phase == Phase::Response ==> is_sliced(
                    frames,
                    stream_id,
                    contents(chunk),
                ),
                StreamEvent::End => phase == Phase::Response ==> frames[0]@ == (FrameView {
                    stream_id,
                    msg_type: MsgType::StreamEnd,
                    flags: END_STREAM,
                    payload: Seq::empty(),
                }),
                StreamEvent::Frame(f) => phase == Phase::Body && signal_of(event) is Corrupt
                    ==> frames[0]@ == text_frame(
                    stream_id,
                    MsgType::StreamError,
                    "gzip decompress failed: "@ + gzip::plain_payload(f@).failure_text(),
                ),
                _ => true,
            }
        }
    }

    /// Takes in what happened and says which frames to send, in order.
    pub fn handle(&mut self, event: StreamEvent) -> (frames: Vec<Frame>)
        ensures
            final(self).id() == old(self).id(),
            final(self).phase() == advance(old(self).phase(), signal_of(event)).0,
            types_of(frames@) == advance(old(self).phase(), signal_of(event)).1,
            forall|i: int| 0 <= i < frames@.len() ==> (#[trigger] frames@[i]).stream_id == old(self).id(),
            final(self).body() == Self::body_after(old(self).phase(), old(self).body(), event),
            Self::holds(old(self).id(), old(self).phase(), event, frames@),
    {
        let mut frames: Vec<Frame> = Vec::new();
        let id = self.stream_id;
        match self.phase {
            Phase::Done | Phase::Dropped => {},
            Phase::Body => match event {
                StreamEvent::Frame(frame) => match frame.msg_type {
                    MsgType::RequestBody => match gzip::decompress_if_gzip(&frame) {
                        Ok(payload) => {
                            if buffer::as_slice(&payload).len() > 0 {
                                self.parts.push(payload);
                                assert(self.parts@.drop_last() =~= old(self).parts@);
                            } else {
                                assert(old(self).body() + contents(payload) =~= old(self).body());
                            }
                            if frame.is_end_stream() {
                                self.phase = Phase::Request;
                            }
                        },
                        Err(e) => {
                            let detail = e.message();
                            let msg = text::concat("gzip decompress failed: ", detail.as_str());
                            frames.push(error_frame(id, msg.as_str()));
                            self.phase = Phase::Done;
                        },
                    },
                    MsgType::StreamEnd => {
                        self.phase = Phase::Request;
                    },
                    MsgType::StreamError => {
                        self.phase = Phase::Dropped;
                    },
                    _ => {},
                },
                StreamEvent::Disconnected => {
                    self.phase = Phase::Dropped;
                },
                StreamEvent::Failed(msg) => {
                    frames.push(error_frame(id, msg.as_str()));
                    self.phase = Phase::Done;
                },
                StreamEvent::Congested => {
                    self.phase = Phase::Dropped;
                },
                _ => {},
            },
            Phase::Request => match event {
                StreamEvent::Failed(msg) => {
                    frames.push(error_frame(id, msg.as_str()));
                    self.phase = Phase::Done;
                },
                StreamEvent::Head(meta) => {
                    frames.push(Frame::new(id, MsgType::ResponseHeaders, 0, meta));
                    self.phase = Phase::Response;
                },
                StreamEvent::Congested => {
                    self.phase = Phase::Dropped;
                },
                _ => {},
            },
            Phase::Response => match event {
                StreamEvent::Failed(msg) => {
                    frames.push(error_frame(id, msg.as_str()));
                    self.phase = Phase::Done;
                },
                StreamEvent::Chunk(chunk) => {
                    frames = split_chunk(id, &chunk);
                },
                StreamEvent::End => {
                    frames.push(
                        Frame::new(
                            id,
                            MsgType::StreamEnd,
                            END_STREAM,
                            buffer::from_vec(Vec::new()),
                        ),
                    );
                    self.phase = Phase::Done;
                },
                StreamEvent::Congested => {
                    self.phase = Phase::Dropped;
                },
                _ => {},
            },
        }
        assert(types_of(frames@) =~= advance(old(self).phase(), signal_of(event)).1);
        frames
    }

    /// Hands out the request body as one buffer.
    pub fn take_body(&mut self) -> (body: Bytes)
        ensures
            contents(body) == old(self).body(),
            final(self).body() == Seq::<u8>::empty(),
            final(self).id() == old(self).id(),
            final(self).phase() == old(self).phase(),
    {
        if self.parts.len() == 0 {
            return buffer::from_vec(Vec::new());
        }
        if self.parts.len() == 1 {
            let only = self.parts.pop().unwrap();
            assert(old(self).parts@.drop_last().len() == 0);
            assert(joined(old(self).parts@.drop_last()) =~= Seq::<u8>::empty());
            assert(only == old(self).parts@.last());
            assert(joined(old(self).parts@) =~= contents(only));
            assert(joined(self.parts@) =~= Seq::<u8>::empty());
            return only;
        }
        let mut combined: Vec<u8> = Vec::new();
        let mut i: usize = 0;
        while i < self.parts.len()
            invariant
                i <= self.parts@.len(),
                self.parts@ == old(self).parts@,
                self.stream_id == old(self).stream_id,
                self.phase == old(self).phase,
                combined@ == joined(self.parts@.take(i as int)),
            decreases self.parts@.len() - i,
        {
            assert(self.parts@.take(i + 1).drop_last() =~= self.parts@.take(i as int));
            combined.extend_from_slice(buffer::as_slice(&self.parts[i]));
            i += 1;
        }
        assert(self.parts@.take(i as int) =~= self.parts@);
        self.parts = Vec::new();
        buffer::from_vec(combined)
    }
}

} // verus!
