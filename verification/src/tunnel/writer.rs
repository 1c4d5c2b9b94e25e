//! The writer of a tunnel: the one task that owns the sink, so that frames
//! leave in the order in which they were queued.

use crate::buffer::contents;
use crate::protocol::{encoded, Frame, FrameView};
use bytes::Bytes;
use vstd::prelude::*;

verus! {

/// Frames that the channel to the writer holds.
pub const WRITER_CHANNEL_CAPACITY: usize = 256;

/// Seconds that a session waits for its writer to finish.
pub const WRITER_SHUTDOWN_TIMEOUT_SECS: u64 = 35;

/// Something that happens to the writer.
#[derive(Debug, Clone)]
pub enum WriterEvent {
    /// The next frame of the queue.
    Frame(Frame),
    /// The keepalive interval has passed.
    Tick,
    /// Every sender is gone: the queue is closed and empty.
    Closed,
    /// The sink refused a message.
    SendFailed,
}

/// What the writer does next.
#[derive(Debug, Clone)]
pub enum WriterAction {
    /// Send one binary message.
    Binary(Bytes),
    /// Send a transport-level ping with no payload.
    Ping,
    /// Close the sink and end the task.
    Close,
    /// The writer has ended: nothing.
    Idle,
}

/// What an event is to the writer's course, payloads aside.
pub enum WriterSignal {
    Frame(FrameView),
    Tick,
    Closed,
    SendFailed,
}

pub open spec fn writer_signal(event: WriterEvent) -> WriterSignal {
    match event {
        WriterEvent::Frame(f) => WriterSignal::Frame(f@),
        WriterEvent::Tick => WriterSignal::Tick,
        WriterEvent::Closed => WriterSignal::Closed,
        WriterEvent::SendFailed => WriterSignal::SendFailed,
    }
}

/// Whether a writer still runs after `signal`, and the binary message that
/// it sends on it: a running writer sends the wire form of a frame, and
/// ends when the queue closes or the sink fails; a writer that has ended
/// sends nothing.
pub open spec fn after(running: bool, signal: WriterSignal) -> (bool, Option<Seq<u8>>) {
    if !running {
        (false, None)
    } else {
        match signal {
            WriterSignal::Frame(f) => (true, Some(encoded(f))),
            WriterSignal::Tick => (true, None),
            WriterSignal::Closed => (false, None),
            WriterSignal::SendFailed => (false, None),
        }
    }
}

/// The binary messages that a writer sends for `signals`, in order.
pub open spec fn written(running: bool, signals: Seq<WriterSignal>) -> Seq<Seq<u8>>
    decreases signals.len(),
{
    if signals.len() == 0 {
        seq![]
    } else {
        let step = after(running, signals[0]);
        let rest = written(step.0, signals.drop_first());
        match step.1 {
            Some(message) => seq![message] + rest,
            None => rest,
        }
    }
}

/// The frames that a writer takes from the queue while it runs, in the
/// order of the queue.
pub open spec fn queued(running: bool, signals: Seq<WriterSignal>) -> Seq<FrameView>
    decreases signals.len(),
{
    if signals.len() == 0 {
        seq![]
    } else {
        let rest = queued(after(running, signals[0]).0, signals.drop_first());
        match signals[0] {
            WriterSignal::Frame(f) => if running {
                seq![f] + rest
            } else {
                rest
            },
            _ => rest,
        }
    }
}

/// The writer sends the frames in the order in which it took them from the
/// queue, each as its wire form, and nothing else in binary.
pub proof fn lemma_written_in_queue_order(running: bool, signals: Seq<WriterSignal>)
    ensures
        written(running, signals).len() == queued(running, signals).len(),
        forall|i: int|
            0 <= i < queued(running, signals).len() ==> #[trigger] written(running, signals)[i]
                == encoded(queued(running, signals)[i]),
    decreases signals.len(),
{
    if signals.len() > 0 {
        lemma_written_in_queue_order(after(running, signals[0]).0, signals.drop_first());
    }
}

/// The writer of one tunnel session.
#[derive(Debug)]
pub struct Writer {
    open: bool,
}

impl Writer {
    /// Whether the writer still runs.
    pub closed spec fn running(&self) -> bool {
        self.open
    }

    pub fn new() -> (w: Writer)
        ensures
            w.running(),
    {
        Writer { open: true }
    }

    pub fn is_running(&self) -> (r: bool)
        ensures
            r == self.running(),
    {
        self.open
    }

    /// What to do on `event`. A running writer encodes a frame and sends it,
    /// pings on a tick, and closes the sink and ends when the queue closes
    /// or the sink fails. A writer that has ended does nothing.
    pub fn step(&mut self, event: WriterEvent) -> (action: WriterAction)
        ensures
            final(self).running() == after(old(self).running(), writer_signal(event)).0,
            match after(old(self).running(), writer_signal(event)).1 {
                Some(message) => action matches WriterAction::Binary(data) && contents(data)
                    == message,
                None => !(action is Binary),
            },
            !old(self).running() ==> action is Idle,
            old(self).running() ==> match event {
                WriterEvent::Frame(_) => action is Binary,
                WriterEvent::Tick => action is Ping,
                WriterEvent::Closed => action is Close,
                WriterEvent::SendFailed => action is Close,
            },
    {
        if !self.open {
            return WriterAction::Idle;
        }
        match event {
            WriterEvent::Frame(frame) => WriterAction::Binary(frame.encode()),
            WriterEvent::Tick => WriterAction::Ping,
            WriterEvent::Closed => {
                self.open = false;
                WriterAction::Close
            },
            WriterEvent::SendFailed => {
                self.open = false;
                WriterAction::Close
            },
        }
    }
}

} // verus!
