//! The bidirectional splice: the flows that couple one WebSocket with one TCP
//! connection, the decision each takes on every event, and the rule that
//! ends them together.
//!
//! Bytes travel in chunks. A chunk read from TCP becomes one binary frame; a
//! binary frame received becomes one chunk to write. Nothing else on the
//! data channel carries payload.

use crate::frame::{inbound, Frame, FrameView};
use vstd::prelude::*;
use vstd::slice::{slice_subrange, slice_to_vec};

verus! {

/// Size of the buffer a TCP reader reads into: 32 KiB.
pub const READ_BUFFER_SIZE: usize = 32 * 1024;

/// How many chunks one queue of a pipe holds.
pub const SOCKET_QUEUE_LENGTH: usize = 32;

/// What a reading flow does with what it received.
#[derive(Debug, PartialEq, Eq)]
pub enum Relay {
    /// Hand this chunk on to the sink, unchanged.
    Forward(Vec<u8>),
    /// Drop what arrived and read again.
    Skip,
    /// The source is done: the flow ends.
    Finish,
}

/// The mathematical content of a [`Relay`].
pub enum RelayView {
    Forward(Seq<u8>),
    Skip,
    Finish,
}

impl View for Relay {
    type V = RelayView;

    open spec fn view(&self) -> RelayView {
        match self {
            Relay::Forward(chunk) => RelayView::Forward(chunk@),
            Relay::Skip => RelayView::Skip,
            Relay::Finish => RelayView::Finish,
        }
    }
}

/// The decision on what arrived on a data channel: a binary frame is
/// forwarded, a close frame or the end of the stream ends the flow, any other
/// frame is dropped.
pub open spec fn spec_on_frame(event: Option<FrameView>) -> RelayView {
    match event {
        Some(FrameView::Binary(payload)) => RelayView::Forward(payload),
        Some(FrameView::Close) => RelayView::Finish,
        Some(_) => RelayView::Skip,
        None => RelayView::Finish,
    }
}

/// The decision on the outcome of a TCP read into `buffer`: `Some(n)` for `n`
/// bytes read, `None` for a failure. Zero bytes mean the end of the stream.
pub open spec fn spec_on_read(buffer: Seq<u8>, outcome: Option<usize>) -> RelayView {
    match outcome {
        Some(n) => if n == 0 {
            RelayView::Finish
        } else {
            RelayView::Forward(buffer.take(n as int))
        },
        None => RelayView::Finish,
    }
}

/// The frame for what the queue towards the WebSocket handed out: one binary
/// frame per chunk, none once the queue is closed.
pub open spec fn spec_on_dequeued(item: Option<Seq<u8>>) -> Option<FrameView> {
    match item {
        Some(chunk) => Some(FrameView::Binary(chunk)),
        None => None,
    }
}

/// The flow that reads the WebSocket: decides on one received frame, or on
/// `None` once the stream has ended or failed.
pub fn on_frame(event: Option<Frame>) -> (relay: Relay)
    ensures
        relay@ == spec_on_frame(inbound(event)),
{
    match event {
        Some(Frame::Binary(payload)) => Relay::Forward(payload),
        Some(Frame::Close) => Relay::Finish,
        Some(_) => Relay::Skip,
        None => Relay::Finish,
    }
}

/// The flow that reads the TCP socket: decides on the outcome of one read
/// into `buffer`. The chunk forwarded is a copy of the bytes read.
pub fn on_read(buffer: &[u8], outcome: Option<usize>) -> (relay: Relay)
    requires
        outcome matches Some(n) ==> n <= buffer@.len(),
    ensures
        relay@ == spec_on_read(buffer@, outcome),
        !(relay is Skip),
{
    match outcome {
        Some(n) => {
            if n == 0 {
                Relay::Finish
            } else {
                Relay::Forward(slice_to_vec(slice_subrange(buffer, 0, n)))
            }
        },
        None => Relay::Finish,
    }
}

/// What a queue handed out: the bytes of a chunk, or `None` once the queue
/// is closed.
pub open spec fn dequeued(item: Option<Vec<u8>>) -> Option<Seq<u8>> {
    match item {
        Some(chunk) => Some(chunk@),
        None => None,
    }
}

/// The flow that writes the WebSocket: wraps what the queue handed out.
/// `None` means the queue is closed and the flow ends.
pub fn on_dequeued(item: Option<Vec<u8>>) -> (frame: Option<Frame>)
    ensures
        inbound(frame) == spec_on_dequeued(dequeued(item)),
{
    match item {
        Some(chunk) => Some(Frame::Binary(chunk)),
        None => None,
    }
}

/// What the flow that writes the TCP socket does after one write.
#[derive(Debug, PartialEq, Eq)]
pub enum WriteProgress {
    /// The whole chunk is written: take the next one.
    Done,
    /// Part of the chunk is written: write these remaining bytes next.
    Remaining(Vec<u8>),
    /// The socket is gone: the flow ends.
    Finish,
}

/// The mathematical content of a [`WriteProgress`].
pub enum WriteProgressView {
    Done,
    Remaining(Seq<u8>),
    Finish,
}

impl View for WriteProgress {
    type V = WriteProgressView;

    open spec fn view(&self) -> WriteProgressView {
        match self {
            WriteProgress::Done => WriteProgressView::Done,
            WriteProgress::Remaining(rest) => WriteProgressView::Remaining(rest@),
            WriteProgress::Finish => WriteProgressView::Finish,
        }
    }
}

/// The decision on the outcome of writing `chunk` to TCP: `Some(n)` for `n`
/// bytes taken, `None` for a failure. An empty chunk is written as it is and
/// is done with zero bytes; a socket that takes nothing of a chunk that is
/// not empty is gone.
pub open spec fn spec_on_written(chunk: Seq<u8>, outcome: Option<usize>) -> WriteProgressView {
    match outcome {
        Some(n) => if n == chunk.len() {
            WriteProgressView::Done
        } else if n == 0 {
            WriteProgressView::Finish
        } else {
            WriteProgressView::Remaining(chunk.skip(n as int))
        },
        None => WriteProgressView::Finish,
    }
}

/// The flow that writes the TCP socket: decides on the outcome of one write
/// of `chunk`.
pub fn on_written(chunk: &[u8], outcome: Option<usize>) -> (progress: WriteProgress)
    requires
        outcome matches Some(n) ==> n <= chunk@.len(),
    ensures
        progress@ == spec_on_written(chunk@, outcome),
{
    match outcome {
        Some(n) => {
            if n == chunk.len() {
                WriteProgress::Done
            } else if n == 0 {
                WriteProgress::Finish
            } else {
                WriteProgress::Remaining(slice_to_vec(slice_subrange(chunk, n, chunk.len())))
            }
        },
        None => WriteProgress::Finish,
    }
}

/// A chunk that one end wraps into a frame is the chunk the other end
/// forwards: across the data channel no byte is added, lost or moved.
pub proof fn law_chunk_crosses_unchanged(chunk: Seq<u8>)
    ensures
        spec_on_frame(spec_on_dequeued(Some(chunk))) == RelayView::Forward(chunk),
{
}

/// What a partial write leaves over is what follows the bytes written: the
/// bytes taken and the bytes remaining make up the chunk, in order.
pub proof fn law_partial_write_keeps_order(chunk: Seq<u8>, n: usize)
    requires
        0 < n < chunk.len(),
    ensures
        spec_on_written(chunk, Some(n)) == WriteProgressView::Remaining(chunk.skip(n as int)),
        chunk.take(n as int) + chunk.skip(n as int) == chunk,
{
}

/// An endpoint that closes ends the flow that reads it: a close frame and
/// the end of the WebSocket stream end its reader, the end of the TCP stream
/// and a failed read end the TCP reader, whatever the buffer holds, and a
/// closed queue ends the flow that drains it.
pub proof fn law_closed_endpoint_ends_flow(buffer: Seq<u8>)
    ensures
        spec_on_frame(Some(FrameView::Close)) == RelayView::Finish,
        spec_on_frame(None) == RelayView::Finish,
        spec_on_read(buffer, Some(0)) == RelayView::Finish,
        spec_on_read(buffer, None) == RelayView::Finish,
        spec_on_dequeued(None) is None,
{
}

/// One of the four flows of a session.
#[derive(Clone, Copy, Debug, PartialEq, Eq, Structural)]
pub enum Flow {
    /// Receives frames from the WebSocket.
    WebSocketReader,
    /// Reads chunks from the TCP socket.
    SocketReader,
    /// Sends frames to the WebSocket.
    WebSocketWriter,
    /// Writes chunks to the TCP socket.
    SocketWriter,
}

/// The other three flows, in the order of declaration.
pub open spec fn others(flow: Flow) -> Seq<Flow> {
    match flow {
        Flow::WebSocketReader => seq![Flow::SocketReader, Flow::WebSocketWriter, Flow::SocketWriter],
        Flow::SocketReader => seq![Flow::WebSocketReader, Flow::WebSocketWriter, Flow::SocketWriter],
        Flow::WebSocketWriter => seq![Flow::WebSocketReader, Flow::SocketReader, Flow::SocketWriter],
        Flow::SocketWriter => seq![Flow::WebSocketReader, Flow::SocketReader, Flow::WebSocketWriter],
    }
}

/// Where a flow stands.
#[derive(Clone, Copy, Debug, PartialEq, Eq, Structural)]
pub enum FlowStatus {
    Running,
    /// It came to its own end.
    Finished,
    /// It was aborted because another flow finished.
    Cancelled,
}

/// The coordinator of one session. All four flows run until the first of
/// them finishes; that ends the session and the other three are aborted.
#[derive(Clone, Copy, Debug, PartialEq, Eq, Structural)]
pub struct Splice {
    pub ended_by: Option<Flow>,
}

impl Splice {
    /// Whether the session is live: no flow has finished yet.
    pub open spec fn live(&self) -> bool {
        self.ended_by is None
    }

    /// Where `flow` stands.
    pub open spec fn spec_status(&self, flow: Flow) -> FlowStatus {
        match self.ended_by {
            None => FlowStatus::Running,
            Some(first) => if first == flow {
                FlowStatus::Finished
            } else {
                FlowStatus::Cancelled
            },
        }
    }

    /// The coordinator after `flow` has finished.
    pub open spec fn after_finish(self, flow: Flow) -> Splice {
        if self.live() {
            Splice { ended_by: Some(flow) }
        } else {
            self
        }
    }

    /// A session with all four flows running.
    pub fn new() -> (splice: Splice)
        ensures
            splice.live(),
    {
        Splice { ended_by: None }
    }

    /// Whether the session is live.
    pub fn is_live(&self) -> (b: bool)
        ensures
            b == self.live(),
    {
        self.ended_by.is_none()
    }

    /// Where `flow` stands.
    pub fn status(&self, flow: Flow) -> (status: FlowStatus)
        ensures
            status == self.spec_status(flow),
    {
        match self.ended_by {
            None => FlowStatus::Running,
            Some(first) => if first == flow {
                FlowStatus::Finished
            } else {
                FlowStatus::Cancelled
            },
        }
    }

    /// Records that `flow` has finished and returns the flows to abort: the
    /// other three if the session was live, none if it had ended before.
    pub fn finish(&mut self, flow: Flow) -> (cancel: Vec<Flow>)
        ensures
            *final(self) == old(self).after_finish(flow),
            !final(self).live(),
            cancel@ == if old(self).live() {
                others(flow)
            } else {
                Seq::<Flow>::empty()
            },
    {
        let mut cancel: Vec<Flow> = Vec::new();
        if self.ended_by.is_none() {
            self.ended_by = Some(flow);
            match flow {
                Flow::WebSocketReader => {
                    cancel.push(Flow::SocketReader);
                    cancel.push(Flow::WebSocketWriter);
                    cancel.push(Flow::SocketWriter);
                },
                Flow::SocketReader => {
                    cancel.push(Flow::WebSocketReader);
                    cancel.push(Flow::WebSocketWriter);
                    cancel.push(Flow::SocketWriter);
                },
                Flow::WebSocketWriter => {
                    cancel.push(Flow::WebSocketReader);
                    cancel.push(Flow::SocketReader);
                    cancel.push(Flow::SocketWriter);
                },
                Flow::SocketWriter => {
                    cancel.push(Flow::WebSocketReader);
                    cancel.push(Flow::SocketReader);
                    cancel.push(Flow::WebSocketWriter);
                },
            }
            assert(cancel@ =~= others(flow));
        }
        cancel
    }
}

/// Once any flow has finished, no flow runs any more: the one that finished
/// first is finished, every other one is cancelled, and nothing that
/// finishes later changes that.
pub proof fn law_first_finish_ends_all(splice: Splice, first: Flow, later: Flow, flow: Flow)
    requires
        splice.live(),
    ensures
        splice.after_finish(first).spec_status(flow) != FlowStatus::Running,
        splice.after_finish(first).spec_status(first) == FlowStatus::Finished,
        flow != first ==> splice.after_finish(first).spec_status(flow) == FlowStatus::Cancelled,
        splice.after_finish(first).after_finish(later) == splice.after_finish(first),
{
}

} // verus!
