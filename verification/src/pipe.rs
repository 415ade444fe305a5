//! The connection pipe: the two byte queues between the TCP side and the
//! WebSocket side of one session on the front.
//!
//! Each queue holds at most [`SOCKET_QUEUE_LENGTH`] chunks. A flow that
//! finds its queue full keeps its chunk and is blocked until the other side
//! has taken one out: a slow TCP writer blocks the WebSocket reader, and a
//! slow WebSocket writer blocks the TCP reader. When either side ends, the
//! pipe is closed in both directions.

use crate::queue::{BoundedQueue, RecvError, SendError};
use crate::splice::{Relay, READ_BUFFER_SIZE, SOCKET_QUEUE_LENGTH};
use vstd::prelude::*;

verus! {

/// The bytes of a sequence of chunks, in order.
pub open spec fn bytes_of(chunks: Seq<Vec<u8>>) -> Seq<u8>
    decreases chunks.len(),
{
    if chunks.len() == 0 {
        Seq::empty()
    } else {
        bytes_of(chunks.drop_last()) + chunks.last()@
    }
}

/// The bytes of two sequences of chunks, one after the other, are the bytes
/// of the first followed by the bytes of the second.
pub proof fn lemma_bytes_of_concat(a: Seq<Vec<u8>>, b: Seq<Vec<u8>>)
    ensures
        bytes_of(a + b) == bytes_of(a) + bytes_of(b),
    decreases b.len(),
{
    if b.len() == 0 {
        assert(a + b =~= a);
        assert(bytes_of(a) + bytes_of(b) =~= bytes_of(a));
    } else {
        lemma_bytes_of_concat(a, b.drop_last());
        assert((a + b).drop_last() =~= a + b.drop_last());
        assert((a + b).last() == b.last());
        assert(bytes_of(a + b) =~= bytes_of(a) + bytes_of(b));
    }
}

/// The bytes that a queue has delivered are a prefix of the bytes written
/// into it, and what is missing is exactly the bytes still queued: no byte
/// is reordered, duplicated or inserted.
pub proof fn law_bytes_in_order(queue: BoundedQueue<Vec<u8>>)
    requires
        queue.wf(),
    ensures
        bytes_of(queue.written()) == bytes_of(queue.delivered()) + bytes_of(queue@),
        bytes_of(queue.delivered()).is_prefix_of(bytes_of(queue.written())),
{
    crate::queue::law_delivered_prefix(queue);
    lemma_bytes_of_concat(queue.delivered(), queue@);
    let delivered = bytes_of(queue.delivered());
    let written = bytes_of(queue.written());
    assert(delivered =~= written.subrange(0, delivered.len() as int));
}

/// Once a queue is drained, the bytes delivered are exactly the bytes
/// written.
pub proof fn law_bytes_round_trip(queue: BoundedQueue<Vec<u8>>)
    requires
        queue.wf(),
        queue@.len() == 0,
    ensures
        bytes_of(queue.delivered()) == bytes_of(queue.written()),
{
    crate::queue::law_drained(queue);
}

/// Chunks of at most `limit` bytes each hold at most `limit` bytes per chunk
/// in all.
pub proof fn lemma_bytes_of_bounded(chunks: Seq<Vec<u8>>, limit: nat)
    requires
        forall|i: int| 0 <= i < chunks.len() ==> (#[trigger] chunks[i])@.len() <= limit,
    ensures
        bytes_of(chunks).len() <= chunks.len() * limit,
    decreases chunks.len(),
{
    if chunks.len() > 0 {
        let front = chunks.drop_last();
        assert forall|i: int| 0 <= i < front.len() implies (#[trigger] front[i])@.len()
            <= limit by {
            assert(front[i] == chunks[i]);
        }
        lemma_bytes_of_bounded(front, limit);
        assert(chunks.last() == chunks[chunks.len() - 1]);
        assert(front.len() * limit + limit == chunks.len() * limit) by (nonlinear_arith)
            requires
                front.len() + 1 == chunks.len(),
        ;
    }
}

/// A queue of the pipe that is fed by a TCP reader never buffers more than
/// 32 chunks of 32 KiB: a stuck peer cannot make memory grow without bound.
pub proof fn law_buffered_bytes_bounded(queue: BoundedQueue<Vec<u8>>)
    requires
        queue.wf(),
        queue.spec_capacity() == SOCKET_QUEUE_LENGTH,
        forall|i: int| 0 <= i < queue@.len() ==> (#[trigger] queue@[i])@.len() <= READ_BUFFER_SIZE,
    ensures
        bytes_of(queue@).len() <= SOCKET_QUEUE_LENGTH * READ_BUFFER_SIZE,
        bytes_of(queue@).len() <= 1024 * 1024,
{
    crate::queue::law_within_bound(queue);
    lemma_bytes_of_bounded(queue@, READ_BUFFER_SIZE as nat);
    assert(queue@.len() * (READ_BUFFER_SIZE as nat) <= SOCKET_QUEUE_LENGTH * READ_BUFFER_SIZE)
        by (nonlinear_arith)
        requires
            queue@.len() <= SOCKET_QUEUE_LENGTH,
    ;
}

/// One of the two directions of a pipe.
#[derive(Clone, Copy, Debug, PartialEq, Eq, Structural)]
pub enum Direction {
    /// From the WebSocket to the TCP socket.
    ToSocket,
    /// From the TCP socket to the WebSocket.
    ToWebSocket,
}

/// What became of what a reading flow offered to the pipe.
#[derive(Debug, PartialEq, Eq)]
pub enum Intake {
    /// The chunk is queued.
    Queued,
    /// There was nothing to queue: read again.
    Skipped,
    /// The queue is full: keep this chunk and offer it again.
    Blocked(Vec<u8>),
    /// The flow ends, and the session with it.
    Finished,
}

/// What a writing flow gets from the pipe.
#[derive(Debug, PartialEq, Eq)]
pub enum Outlet {
    /// The oldest chunk of the queue: write it.
    Chunk(Vec<u8>),
    /// Nothing is queued yet: wait.
    Idle,
    /// Nothing is queued and nothing will come: the flow ends, and the
    /// session with it.
    Finished,
}

/// The pipe of one connection.
pub struct ConnectionPipe {
    /// What the WebSocket side has sent towards the TCP socket.
    pub websocket_data: BoundedQueue<Vec<u8>>,
    /// What the TCP side has read, on its way to the WebSocket.
    pub socket_data: BoundedQueue<Vec<u8>>,
}

impl ConnectionPipe {
    /// The invariant of the pipe: both queues are in order and bounded by
    /// [`SOCKET_QUEUE_LENGTH`].
    pub open spec fn wf(&self) -> bool {
        &&& self.websocket_data.wf()
        &&& self.socket_data.wf()
        &&& self.websocket_data.spec_capacity() == SOCKET_QUEUE_LENGTH
        &&& self.socket_data.spec_capacity() == SOCKET_QUEUE_LENGTH
    }

    /// The queue of a direction.
    pub open spec fn queue(&self, direction: Direction) -> BoundedQueue<Vec<u8>> {
        match direction {
            Direction::ToSocket => self.websocket_data,
            Direction::ToWebSocket => self.socket_data,
        }
    }

    /// The queue of the opposite direction.
    pub open spec fn opposite(&self, direction: Direction) -> BoundedQueue<Vec<u8>> {
        match direction {
            Direction::ToSocket => self.socket_data,
            Direction::ToWebSocket => self.websocket_data,
        }
    }

    /// Whether `self` is `before` with both queues closed.
    pub open spec fn is_close_of(&self, before: Self) -> bool {
        &&& self.websocket_data.is_close_of(before.websocket_data)
        &&& self.socket_data.is_close_of(before.socket_data)
    }

    /// A pipe with both queues open and empty.
    pub fn new() -> (pipe: ConnectionPipe)
        ensures
            pipe.wf(),
            pipe.websocket_data@.len() == 0,
            pipe.socket_data@.len() == 0,
            !pipe.websocket_data.spec_closed(),
            !pipe.socket_data.spec_closed(),
            pipe.websocket_data.written().len() == 0,
            pipe.socket_data.written().len() == 0,
            pipe.websocket_data.delivered().len() == 0,
            pipe.socket_data.delivered().len() == 0,
    {
        ConnectionPipe {
            websocket_data: BoundedQueue::new(SOCKET_QUEUE_LENGTH),
            socket_data: BoundedQueue::new(SOCKET_QUEUE_LENGTH),
        }
    }

    /// Closes the pipe in both directions, as when the TCP connection or
    /// the WebSocket has terminated.
    pub fn close(&mut self)
        ensures
            old(self).wf() ==> final(self).wf(),
            final(self).is_close_of(*old(self)),
    {
        self.websocket_data.close();
        self.socket_data.close();
    }

    /// A reading flow offers what it decided to the queue of its direction.
    /// A chunk is queued if the queue takes it, and comes back if the queue
    /// is full. The end of the flow, and a queue found closed, close the
    /// pipe.
    pub fn offer(&mut self, direction: Direction, relay: Relay) -> (intake: Intake)
        ensures
            old(self).wf() ==> final(self).wf(),
            relay matches Relay::Forward(chunk) ==> (old(self).queue(direction).accepts() ==> intake
                is Queued && final(self).queue(direction).is_push_of(
                old(self).queue(direction),
                chunk,
            ) && final(self).opposite(direction) == old(self).opposite(direction)),
            relay matches Relay::Forward(chunk) ==> (!old(self).queue(direction).accepts() && !old(self).queue(direction).spec_closed() ==> intake == Intake::Blocked(chunk) && *final(self)
                == *old(self)),
            relay matches Relay::Forward(chunk) ==> (old(self).queue(direction).spec_closed()
                ==> intake is Finished && final(self).is_close_of(*old(self))),
            relay is Skip ==> intake is Skipped && *final(self) == *old(self),
            relay is Finish ==> intake is Finished && final(self).is_close_of(*old(self)),
    {
        match relay {
            Relay::Forward(chunk) => {
                let pushed = match direction {
                    Direction::ToSocket => self.websocket_data.push(chunk),
                    Direction::ToWebSocket => self.socket_data.push(chunk),
                };
                match pushed {
                    Ok(()) => Intake::Queued,
                    Err(SendError::Full(chunk)) => Intake::Blocked(chunk),
                    Err(SendError::Closed(_)) => {
                        self.close();
                        Intake::Finished
                    },
                }
            },
            Relay::Skip => Intake::Skipped,
            Relay::Finish => {
                self.close();
                Intake::Finished
            },
        }
    }

    /// A writing flow takes the oldest chunk of the queue of its direction.
    /// A queue that is closed and drained ends the flow and closes the
    /// pipe.
    pub fn take(&mut self, direction: Direction) -> (outlet: Outlet)
        ensures
            old(self).wf() ==> final(self).wf(),
            old(self).queue(direction)@.len() > 0 ==> outlet == Outlet::Chunk(
                old(self).queue(direction)@[0],
            ) && final(self).queue(direction).is_pop_of(old(self).queue(direction)) && final(self).opposite(direction) == old(self).opposite(direction),
            old(self).queue(direction)@.len() == 0 && !old(self).queue(direction).spec_closed()
                ==> outlet is Idle && *final(self) == *old(self),
            old(self).queue(direction)@.len() == 0 && old(self).queue(direction).spec_closed()
                ==> outlet is Finished && final(self).is_close_of(*old(self)),
    {
        let popped = match direction {
            Direction::ToSocket => self.websocket_data.pop(),
            Direction::ToWebSocket => self.socket_data.pop(),
        };
        match popped {
            Ok(chunk) => Outlet::Chunk(chunk),
            Err(RecvError::Empty) => Outlet::Idle,
            Err(RecvError::Closed) => {
                self.close();
                Outlet::Finished
            },
        }
    }
}

/// Neither queue of a pipe ever holds more than [`SOCKET_QUEUE_LENGTH`]
/// chunks.
pub proof fn law_pipe_within_bounds(pipe: ConnectionPipe)
    requires
        pipe.wf(),
    ensures
        pipe.websocket_data@.len() <= SOCKET_QUEUE_LENGTH,
        pipe.socket_data@.len() <= SOCKET_QUEUE_LENGTH,
{
    crate::queue::law_within_bound(pipe.websocket_data);
    crate::queue::law_within_bound(pipe.socket_data);
}

} // verus!
