//! Frame dispatcher: what the read loop of a tunnel does with each message,
//! and which streams are live.

use crate::buffer;
use crate::buffer::contents;
use crate::gzip;
use crate::gzip::{GzipError, Inflated};
use crate::protocol::{decoded, Frame, FrameView, MsgType, ProtocolError};
use crate::text;
use crate::tunnel::stream_handler::{error_frame, text_frame};
use bytes::Bytes;
use std::collections::HashSet;
use vstd::prelude::*;

verus! {

broadcast use vstd::std_specs::hash::group_hash_axioms;

/// The largest message that a tunnel carries: 64 MiB. The transport is
/// configured with the same ceiling for frames and messages.
pub const MAX_MESSAGE_SIZE: usize = 67_108_864;

/// Frames that the channel from the dispatcher to one stream holds.
pub const BODY_CHANNEL_CAPACITY: usize = 64;

/// Frames after which the finished handlers are pruned.
pub const PRUNE_INTERVAL: u32 = 64;

/// Seconds that the dispatcher waits for the handlers when it leaves.
pub const DRAIN_TIMEOUT_SECS: u64 = 30;

/// The stream cap of a tunnel for which none was configured or derived.
pub const DEFAULT_MAX_STREAMS: u32 = 128;

/// What the transport delivered.
#[derive(Debug, Clone)]
pub enum Incoming {
    /// A binary message: one frame.
    Binary(Bytes),
    /// The peer closes the connection.
    Close,
    /// The transport has no more messages.
    Ended,
    /// The transport could not read; the error's text.
    Failed(String),
    /// Anything else (transport-level ping, pong, text): liveness only.
    Other,
}

/// Why a message was discarded.
#[derive(Debug, Clone, PartialEq, Eq)]
pub enum Discarded {
    /// The message is larger than the ceiling; its length.
    TooLarge(usize),
    /// The message is no frame.
    Malformed(ProtocolError),
    /// The request metadata is compressed and cannot be decompressed.
    BadCompression(GzipError),
}

/// What the read loop does with a message.
#[derive(Debug, Clone)]
pub enum Route {
    /// A new request: parse the metadata in `payload`, then ask `open_stream`.
    Request { stream_id: u32, payload: Bytes },
    /// Hand the frame to its stream. If `last`, the stream has left the map
    /// and its sender is dropped behind the frame.
    Body { frame: Frame, last: bool },
    /// The stream has left the map: drop its sender.
    Close { stream_id: u32 },
    /// Offer the frame to the writer without waiting.
    Reply(Frame),
    /// Hand the payload to the heartbeat task.
    Ack(Bytes),
    /// Leave the read loop.
    Exit,
    /// Leave the read loop with an error.
    Fail(String),
    Ignore,
    Discard(Discarded),
}

/// A route, and whether the finished handlers are to be pruned now.
#[derive(Debug, Clone)]
pub struct Routed {
    pub route: Route,
    pub prune: bool,
}

/// The answer to a request for a new stream.
#[derive(Debug, Clone)]
pub enum Admission {
    /// The stream is live: spawn its handler. `prune` as in `Routed`.
    Spawn { prune: bool },
    /// Offer the frame to the writer without waiting and forget the request.
    Reject(Frame),
}

/// The dispatcher's book of live streams.
#[derive(Debug)]
pub struct Dispatcher {
    streams: HashSet<u32>,
    max_streams: usize,
    frames_since_cleanup: u32,
}

/// The count of frames after one more, and whether to prune: every 64
/// frames, or when more handlers are held than streams may be live.
pub open spec fn counted(count: u32, handles: nat, max_streams: nat) -> (u32, bool) {
    if count + 1 >= PRUNE_INTERVAL || handles > max_streams {
        (0u32, true)
    } else {
        ((count + 1) as u32, false)
    }
}

impl Dispatcher {
    /// The ids of the live streams.
    pub closed spec fn streams(&self) -> Set<u32> {
        self.streams@
    }

    pub closed spec fn max_streams(&self) -> usize {
        self.max_streams
    }

    /// Frames routed since the handlers were last pruned.
    pub closed spec fn frames_since_cleanup(&self) -> u32 {
        self.frames_since_cleanup
    }

    /// The dispatcher's invariant: never more live streams than the cap.
    pub open spec fn wf(&self) -> bool {
        &&& self.streams().finite()
        &&& self.streams().len() <= self.max_streams()
        &&& self.frames_since_cleanup() < PRUNE_INTERVAL
    }

    pub fn new(max_streams: usize) -> (d: Dispatcher)
        ensures
            d.wf(),
            d.streams() == Set::<u32>::empty(),
            d.max_streams() == max_streams,
            d.frames_since_cleanup() == 0,
    {
        Dispatcher { streams: HashSet::new(), max_streams, frames_since_cleanup: 0 }
    }

    /// The number of live streams.
    pub fn live_streams(&self) -> (n: usize)
        requires
            self.wf(),
        ensures
            n == self.streams().len(),
            n <= self.max_streams(),
    {
        self.streams.len()
    }

    pub fn is_live(&self, stream_id: u32) -> (r: bool)
        ensures
            r == self.streams().contains(stream_id),
    {
        self.streams.contains(&stream_id)
    }

    fn count_frame(&mut self, handles: usize) -> (prune: bool)
        requires
            old(self).frames_since_cleanup < PRUNE_INTERVAL,
        ensures
            (final(self).frames_since_cleanup, prune) == counted(
                old(self).frames_since_cleanup,
                handles as nat,
                old(self).max_streams as nat,
            ),
            final(self).frames_since_cleanup < PRUNE_INTERVAL,
            final(self).streams == old(self).streams,
            final(self).max_streams == old(self).max_streams,
    {
        self.frames_since_cleanup = self.frames_since_cleanup + 1;
        if self.frames_since_cleanup >= PRUNE_INTERVAL || handles > self.max_streams {
            self.frames_since_cleanup = 0;
            true
        } else {
            false
        }
    }

    /// Whether `frame` is one that the read loop counts towards pruning:
    /// every frame but a new request, which `open_stream` counts, and `GoAway`.
    pub open spec fn counts(frame: FrameView) -> bool {
        frame.msg_type != MsgType::RequestHeaders && frame.msg_type != MsgType::GoAway
    }

    /// The live streams after `frame`: a stream leaves with the last frame
    /// of its body and when the peer ends or cancels it.
    pub open spec fn streams_after(streams: Set<u32>, frame: FrameView) -> Set<u32> {
        match frame.msg_type {
            MsgType::RequestBody => if frame.flags & crate::protocol::END_STREAM != 0 {
                streams.remove(frame.stream_id)
            } else {
                streams
            },
            MsgType::StreamEnd | MsgType::StreamError => streams.remove(frame.stream_id),
            _ => streams,
        }
    }

    /// Whether `route` is the route of `frame` while `streams` are live.
    pub open spec fn routes(streams: Set<u32>, frame: Frame, route: Route) -> bool {
        match frame.msg_type {
            MsgType::RequestHeaders => match gzip::plain_payload(frame@) {
                Inflated::Data(p) => {
                    &&& route matches Route::Request { stream_id, payload }
                    &&& stream_id == frame.stream_id
                    &&& contents(payload) == p
                },
                Inflated::Invalid(msg) => {
                    &&& route matches Route::Discard(
                        Discarded::BadCompression(GzipError::Invalid(m)),
                    )
                    &&& m@ == msg
                },
                Inflated::TooLarge => route matches Route::Discard(
                    Discarded::BadCompression(GzipError::TooLarge),
                ),
            },
            MsgType::RequestBody => if streams.contains(frame.stream_id) {
                &&& route matches Route::Body { frame: f, last }
                &&& f == frame
                &&& last == frame.is_end_stream()
            } else {
                route is Ignore
            },
            MsgType::StreamEnd | MsgType::StreamError => if streams.contains(frame.stream_id) {
                route matches Route::Close { stream_id } && stream_id == frame.stream_id
            } else {
                route is Ignore
            },
            MsgType::Ping => {
                &&& route matches Route::Reply(pong)
                &&& pong@ == (FrameView {
                    stream_id: 0,
                    msg_type: MsgType::Pong,
                    flags: 0,
                    payload: frame@.payload,
                })
            },
            MsgType::HeartbeatAck => route matches Route::Ack(p) && p == frame.payload,
            MsgType::GoAway => route is Exit,
            _ => route is Ignore,
        }
    }

    /// Routes one frame.
    pub fn on_frame(&mut self, frame: Frame, handles: usize) -> (r: Routed)
        requires
            old(self).wf(),
        ensures
            final(self).wf(),
            final(self).max_streams() == old(self).max_streams(),
            Self::routes(old(self).streams(), frame, r.route),
            final(self).streams() == (if old(self).streams().contains(frame.stream_id) {
                Self::streams_after(old(self).streams(), frame@)
            } else {
                old(self).streams()
            }),
            final(self).streams().subset_of(old(self).streams()),
            if Self::counts(frame@) {
                (final(self).frames_since_cleanup(), r.prune) == counted(
                    old(self).frames_since_cleanup(),
                    handles as nat,
                    old(self).max_streams() as nat,
                )
            } else {
                final(self).frames_since_cleanup() == old(self).frames_since_cleanup() && !r.prune
            },
    {
        match frame.msg_type {
            MsgType::RequestHeaders => match gzip::decompress_if_gzip(&frame) {
                Ok(payload) => Routed {
                    route: Route::Request { stream_id: frame.stream_id, payload },
                    prune: false,
                },
                Err(e) => Routed {
                    route: Route::Discard(Discarded::BadCompression(e)),
                    prune: false,
                },
            },
            MsgType::RequestBody => {
                let route = if self.streams.contains(&frame.stream_id) {
                    let last = frame.is_end_stream();
                    if last {
                        self.streams.remove(&frame.stream_id);
                    }
                    Route::Body { frame, last }
                } else {
                    Route::Ignore
                };
                let prune = self.count_frame(handles);
                Routed { route, prune }
            },
            MsgType::StreamEnd | MsgType::StreamError => {
                let route = if self.streams.remove(&frame.stream_id) {
                    Route::Close { stream_id: frame.stream_id }
                } else {
                    assert(self.streams@ =~= old(self).streams@);
                    Route::Ignore
                };
                let prune = self.count_frame(handles);
                Routed { route, prune }
            },
            MsgType::Ping => {
                let prune = self.count_frame(handles);
                Routed { route: Route::Reply(Frame::control(MsgType::Pong, frame.payload)), prune }
            },
            MsgType::HeartbeatAck => {
                let prune = self.count_frame(handles);
                Routed { route: Route::Ack(frame.payload), prune }
            },
            MsgType::GoAway => Routed { route: Route::Exit, prune: false },
            _ => {
                let prune = self.count_frame(handles);
                Routed { route: Route::Ignore, prune }
            },
        }
    }

    /// Whether a message of `len` bytes is within the ceiling.
    pub fn accepts_len(len: usize) -> (r: bool)
        ensures
            r == (len <= MAX_MESSAGE_SIZE),
    {
        len <= MAX_MESSAGE_SIZE
    }

    /// Routes one message of the transport: a binary message within the
    /// ceiling is decoded and routed as a frame; a close or the end of the
    /// transport ends the loop, a read error ends it with that error;
    /// anything else is ignored.
    pub fn on_message(&mut self, msg: Incoming, handles: usize) -> (r: Routed)
        requires
            old(self).wf(),
        ensures
            final(self).wf(),
            final(self).max_streams() == old(self).max_streams(),
            final(self).streams().subset_of(old(self).streams()),
            match msg {
                Incoming::Close => r.route is Exit && !r.prune && final(self).streams() == old(
                    self,
                ).streams(),
                Incoming::Other => r.route is Ignore && !r.prune && final(self).streams() == old(
                    self,
                ).streams(),
                Incoming::Ended => r.route is Exit && !r.prune && final(self).streams() == old(
                    self,
                ).streams(),
                Incoming::Failed(e) => {
                    &&& r.route == Route::Fail(e)
                    &&& !r.prune
                    &&& final(self).streams() == old(self).streams()
                },
                Incoming::Binary(data) => if contents(data).len() > MAX_MESSAGE_SIZE {
                    &&& r.route == Route::Discard(Discarded::TooLarge(contents(data).len() as usize))
                    &&& !r.prune
                    &&& final(self).streams() == old(self).streams()
                } else {
                    match decoded(contents(data)) {
                        Err(e) => {
                            &&& r.route == Route::Discard(Discarded::Malformed(e))
                            &&& !r.prune
                            &&& final(self).streams() == old(self).streams()
                        },
                        Ok(f) => exists|frame: Frame|
                            #![auto]
                            {
                                &&& frame@ == f
                                &&& Self::routes(old(self).streams(), frame, r.route)
                                &&& final(self).streams() == (if old(self).streams().contains(
                                    f.stream_id,
                                ) {
                                    Self::streams_after(old(self).streams(), f)
                                } else {
                                    old(self).streams()
                                })
                            },
                    }
                },
            },
    {
        match msg {
            Incoming::Close => Routed { route: Route::Exit, prune: false },
            Incoming::Other => Routed { route: Route::Ignore, prune: false },
            Incoming::Ended => Routed { route: Route::Exit, prune: false },
            Incoming::Failed(e) => Routed { route: Route::Fail(e), prune: false },
            Incoming::Binary(data) => {
                let len = buffer::as_slice(&data).len();
                if !Self::accepts_len(len) {
                    return Routed { route: Route::Discard(Discarded::TooLarge(len)), prune: false };
                }
                match Frame::decode(data) {
                    Err(e) => Routed { route: Route::Discard(Discarded::Malformed(e)), prune: false },
                    Ok(frame) => self.on_frame(frame, handles),
                }
            },
        }
    }

    /// Decides on a new stream, once its request metadata was parsed
    /// (`parsed` carries the parser's message where it was not): a request
    /// that does not parse is refused; so is any request while as many
    /// streams are live as may be; else the stream is live.
    pub fn open_stream(&mut self, stream_id: u32, parsed: Result<(), String>, handles: usize) -> (a:
        Admission)
        requires
            old(self).wf(),
        ensures
            final(self).wf(),
            final(self).max_streams() == old(self).max_streams(),
            match parsed {
                Err(e) => {
                    &&& a matches Admission::Reject(f)
                    &&& f@ == text_frame(
                        stream_id,
                        MsgType::StreamError,
                        "invalid request metadata: "@ + e@,
                    )
                    &&& final(self).streams() == old(self).streams()
                    &&& final(self).frames_since_cleanup() == old(self).frames_since_cleanup()
                },
                Ok(_) => if old(self).streams().len() >= old(self).max_streams() {
                    &&& a matches Admission::Reject(f)
                    &&& f@ == text_frame(
                        stream_id,
                        MsgType::StreamError,
                        "max concurrent streams reached"@,
                    )
                    &&& final(self).streams() == old(self).streams()
                    &&& final(self).frames_since_cleanup() == old(self).frames_since_cleanup()
                } else {
                    &&& a matches Admission::Spawn { prune }
                    &&& final(self).streams() == old(self).streams().insert(stream_id)
                    &&& (final(self).frames_since_cleanup(), prune) == counted(
                        old(self).frames_since_cleanup(),
                        handles as nat + 1,
                        old(self).max_streams() as nat,
                    )
                },
            },
    {
        match parsed {
            Err(e) => {
                let msg = text::concat("invalid request metadata: ", e.as_str());
                Admission::Reject(error_frame(stream_id, msg.as_str()))
            },
            Ok(_) => {
                if self.streams.len() >= self.max_streams {
                    return Admission::Reject(
                        error_frame(stream_id, "max concurrent streams reached"),
                    );
                }
                self.streams.insert(stream_id);
                self.frames_since_cleanup = self.frames_since_cleanup + 1;
                let prune = if self.frames_since_cleanup >= PRUNE_INTERVAL || handles
                    >= self.max_streams {
                    self.frames_since_cleanup = 0;
                    true
                } else {
                    false
                };
                Admission::Spawn { prune }
            },
        }
    }

    /// Forgets every stream: the read loop has ended.
    pub fn clear(&mut self)
        requires
            old(self).wf(),
        ensures
            final(self).wf(),
            final(self).streams() == Set::<u32>::empty(),
            final(self).max_streams() == old(self).max_streams(),
    {
        self.streams = HashSet::new();
        self.frames_since_cleanup = 0;
    }
}

/// The millisecond at which a tunnel that last received anything at
/// `last_rx_ms` counts as dead.
pub open spec fn stale_at(last_rx_ms: u64, stale_timeout_secs: u64) -> u64 {
    if last_rx_ms + stale_timeout_secs * 1000 > u64::MAX {
        u64::MAX
    } else {
        (last_rx_ms + stale_timeout_secs * 1000) as u64
    }
}

pub fn stale_deadline(last_rx_ms: u64, stale_timeout_secs: u64) -> (at: u64)
    ensures
        at == stale_at(last_rx_ms, stale_timeout_secs),
{
    if stale_timeout_secs > (u64::MAX - last_rx_ms) / 1000 {
        u64::MAX
    } else {
        last_rx_ms + stale_timeout_secs * 1000
    }
}

/// Whether nothing has arrived for the stale timeout.
pub fn is_stale(now_ms: u64, last_rx_ms: u64, stale_timeout_secs: u64) -> (r: bool)
    ensures
        r == (now_ms >= stale_at(last_rx_ms, stale_timeout_secs)),
{
    now_ms >= stale_deadline(last_rx_ms, stale_timeout_secs)
}

} // verus!
