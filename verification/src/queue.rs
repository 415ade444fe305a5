//! A bounded first-in first-out queue between one producer and one consumer.
//!
//! The queue never holds more than its capacity: a producer that finds it
//! full gets its item back and has to wait for the consumer. It remembers,
//! as ghost state, everything it ever took in and everything it ever handed
//! out, so that the order of delivery can be stated of every state.

use std::collections::VecDeque;
use vstd::prelude::*;

verus! {

/// Why an item was not taken in. The item comes back unchanged.
#[derive(Debug, PartialEq, Eq)]
pub enum SendError<T> {
    /// The queue holds as many items as its capacity allows.
    Full(T),
    /// The queue is closed.
    Closed(T),
}

/// Why no item was handed out.
#[derive(Clone, Copy, Debug, PartialEq, Eq, Structural)]
pub enum RecvError {
    /// Nothing is queued, but the queue is open.
    Empty,
    /// Nothing is queued and the queue is closed: nothing will ever come.
    Closed,
}

/// A bounded queue of `T`.
pub struct BoundedQueue<T> {
    items: VecDeque<T>,
    capacity: usize,
    closed: bool,
    written: Ghost<Seq<T>>,
    delivered: Ghost<Seq<T>>,
}

impl<T> View for BoundedQueue<T> {
    type V = Seq<T>;

    /// The items queued, oldest first.
    closed spec fn view(&self) -> Seq<T> {
        self.items@
    }
}

impl<T> BoundedQueue<T> {
    /// The most items the queue may hold.
    pub closed spec fn spec_capacity(&self) -> nat {
        self.capacity as nat
    }

    /// Whether the queue is closed.
    pub closed spec fn spec_closed(&self) -> bool {
        self.closed
    }

    /// Every item the queue ever took in, in the order of arrival.
    pub closed spec fn written(&self) -> Seq<T> {
        self.written@
    }

    /// Every item the queue ever handed out, in the order of delivery.
    pub closed spec fn delivered(&self) -> Seq<T> {
        self.delivered@
    }

    /// The invariant of the queue: its capacity is positive, it holds no more
    /// than its capacity, and what it took in is what it handed out followed
    /// by what it still holds.
    pub closed spec fn wf(&self) -> bool {
        &&& self.capacity > 0
        &&& self.items@.len() <= self.capacity
        &&& self.written@ == self.delivered@ + self.items@
    }

    #[verifier::type_invariant]
    spec fn inv(self) -> bool {
        self.wf()
    }

    /// Takes the queue out whole and leaves a closed, empty one in its
    /// place, so that the invariant holds at every point while the queue
    /// is changed.
    fn take(&mut self) -> (taken: Self)
        ensures
            taken == *old(self),
            taken.wf(),
    {
        proof {
            use_type_invariant(&*self);
        }
        let mut taken = BoundedQueue {
            items: VecDeque::new(),
            capacity: 1,
            closed: true,
            written: Ghost(Seq::empty()),
            delivered: Ghost(Seq::empty()),
        };
        std::mem::swap(self, &mut taken);
        taken
    }

    /// An open, empty queue for at most `capacity` items.
    pub fn new(capacity: usize) -> (queue: Self)
        requires
            capacity > 0,
        ensures
            queue.wf(),
            queue@ == Seq::<T>::empty(),
            queue.spec_capacity() == capacity,
            !queue.spec_closed(),
            queue.written() == Seq::<T>::empty(),
            queue.delivered() == Seq::<T>::empty(),
    {
        BoundedQueue {
            items: VecDeque::new(),
            capacity,
            closed: false,
            written: Ghost(Seq::empty()),
            delivered: Ghost(Seq::empty()),
        }
    }

    /// The number of items queued.
    pub fn len(&self) -> (n: usize)
        ensures
            n == self@.len(),
            n <= self.spec_capacity(),
    {
        broadcast use vstd::std_specs::vecdeque::group_vec_dequeue_axioms;

        proof {
            use_type_invariant(self);
        }
        self.items.len()
    }

    /// The most items the queue may hold.
    pub fn capacity(&self) -> (n: usize)
        ensures
            n == self.spec_capacity(),
    {
        self.capacity
    }

    /// Whether nothing is queued.
    pub fn is_empty(&self) -> (b: bool)
        ensures
            b == (self@.len() == 0),
    {
        self.len() == 0
    }

    /// Whether the queue holds as many items as its capacity allows.
    pub fn is_full(&self) -> (b: bool)
        ensures
            b == (self@.len() == self.spec_capacity()),
    {
        self.len() == self.capacity
    }

    /// Whether the queue is closed.
    pub fn is_closed(&self) -> (b: bool)
        ensures
            b == self.spec_closed(),
    {
        self.closed
    }

    /// Whether the queue takes an item in: it is open and not full.
    pub open spec fn accepts(&self) -> bool {
        !self.spec_closed() && self@.len() < self.spec_capacity()
    }

    /// Whether `self` is `before` with `item` queued behind all others.
    pub open spec fn is_push_of(&self, before: Self, item: T) -> bool {
        &&& self@ == before@.push(item)
        &&& self.written() == before.written().push(item)
        &&& self.delivered() == before.delivered()
        &&& self.spec_capacity() == before.spec_capacity()
        &&& self.spec_closed() == before.spec_closed()
    }

    /// Whether `self` is `before` with its oldest item taken out.
    pub open spec fn is_pop_of(&self, before: Self) -> bool {
        &&& before@.len() > 0
        &&& self@ == before@.skip(1)
        &&& self.written() == before.written()
        &&& self.delivered() == before.delivered().push(before@[0])
        &&& self.spec_capacity() == before.spec_capacity()
        &&& self.spec_closed() == before.spec_closed()
    }

    /// Whether `self` is `before`, closed.
    pub open spec fn is_close_of(&self, before: Self) -> bool {
        &&& self.spec_closed()
        &&& self@ == before@
        &&& self.written() == before.written()
        &&& self.delivered() == before.delivered()
        &&& self.spec_capacity() == before.spec_capacity()
    }

    /// Offers `item` to the queue. A queue that is closed or full gives it
    /// back and stays as it is; otherwise the item is queued behind all
    /// others.
    pub fn push(&mut self, item: T) -> (r: Result<(), SendError<T>>)
        ensures
            final(self).wf(),
            old(self).accepts() ==> r is Ok && final(self).is_push_of(*old(self), item),
            !old(self).accepts() ==> *final(self) == *old(self) && r == Err::<(), SendError<T>>(
                if old(self).spec_closed() {
                    SendError::Closed(item)
                } else {
                    SendError::Full(item)
                },
            ),
    {
        broadcast use vstd::std_specs::vecdeque::group_vec_dequeue_axioms;

        proof {
            use_type_invariant(&*self);
        }
        if self.closed {
            Err(SendError::Closed(item))
        } else if self.items.len() == self.capacity {
            Err(SendError::Full(item))
        } else {
            let BoundedQueue { mut items, capacity, closed, written, delivered } = self.take();
            items.push_back(item);
            assert(written@.push(item) =~= delivered@ + items@);
            *self = BoundedQueue {
                items,
                capacity,
                closed,
                written: Ghost(written@.push(item)),
                delivered,
            };
            Ok(())
        }
    }

    /// Takes the oldest item out of the queue. An empty queue stays as it
    /// is and says whether anything may still come.
    pub fn pop(&mut self) -> (r: Result<T, RecvError>)
        ensures
            final(self).wf(),
            old(self)@.len() > 0 ==> r == Ok::<T, RecvError>(old(self)@[0]) && final(self).is_pop_of(
                *old(self),
            ),
            old(self)@.len() == 0 ==> *final(self) == *old(self) && r == Err::<T, RecvError>(
                if old(self).spec_closed() {
                    RecvError::Closed
                } else {
                    RecvError::Empty
                },
            ),
    {
        broadcast use vstd::std_specs::vecdeque::group_vec_dequeue_axioms;

        proof {
            use_type_invariant(&*self);
        }
        if self.items.len() == 0 {
            if self.closed {
                Err(RecvError::Closed)
            } else {
                Err(RecvError::Empty)
            }
        } else {
            let BoundedQueue { mut items, capacity, closed, written, delivered } = self.take();
            let item = items.pop_front().unwrap();
            assert(items@ =~= old(self).items@.skip(1));
            assert(written@ =~= delivered@.push(item) + items@);
            *self = BoundedQueue {
                items,
                capacity,
                closed,
                written,
                delivered: Ghost(delivered@.push(item)),
            };
            Ok(item)
        }
    }

    /// Closes the queue: from now on nothing is taken in. What is queued can
    /// still be taken out.
    pub fn close(&mut self)
        ensures
            final(self).wf(),
            final(self).is_close_of(*old(self)),
    {
        proof {
            use_type_invariant(&*self);
        }
        self.closed = true;
    }
}

/// The queue never holds more than its capacity.
pub proof fn law_within_bound<T>(queue: BoundedQueue<T>)
    requires
        queue.wf(),
    ensures
        queue@.len() <= queue.spec_capacity(),
        queue.spec_capacity() > 0,
{
}

/// Delivery keeps the order of arrival: what was handed out is a prefix of
/// what was taken in, and what is missing is exactly what is still queued.
/// Nothing is reordered, duplicated or inserted.
pub proof fn law_delivered_prefix<T>(queue: BoundedQueue<T>)
    requires
        queue.wf(),
    ensures
        queue.written() == queue.delivered() + queue@,
        queue.delivered().is_prefix_of(queue.written()),
{
    assert(queue.delivered() =~= queue.written().subrange(0, queue.delivered().len() as int));
}

/// Once the queue is drained, everything taken in has been handed out.
pub proof fn law_drained<T>(queue: BoundedQueue<T>)
    requires
        queue.wf(),
        queue@.len() == 0,
    ensures
        queue.delivered() == queue.written(),
{
    assert(queue.delivered() + queue@ =~= queue.delivered());
}

} // verus!
