//! Bounded first-in first-out queue on a ring buffer.

use vstd::prelude::*;

verus! {

/// Simplified queue implementation
pub struct Queue<T> {
    data: Vec<T>,
    capacity: usize,
    length: usize,
    head: usize,
    tail: usize,
}

/// How an attempt to send ended.
#[derive(Clone, Copy, Debug, PartialEq, Eq, Structural)]
pub enum SendStep {
    /// The item was queued.
    Sent,
    /// The queue is full and the wait is over.
    TimedOut,
    /// The queue is full: wait for an interrupt and try again.
    Wait,
}

/// How an attempt to receive ended.
#[derive(Debug, PartialEq, Eq)]
pub enum ReceiveStep<T> {
    /// This item was taken from the queue.
    Received(T),
    /// The queue is empty and the wait is over.
    TimedOut,
    /// The queue is empty: wait for an interrupt and try again.
    Wait,
}

/// The slot of the ring buffer that lies `offset` slots after `start`.
pub open spec fn ring_slot(start: int, offset: int, capacity: int) -> int {
    if start + offset < capacity {
        start + offset
    } else {
        start + offset - capacity
    }
}

/// Whether a wait that began at tick `start_tick` is over at tick
/// `current_tick`: it is once `max_wait` ticks have passed, and never if
/// there is no limit.
pub open spec fn wait_over(max_wait: Option<u64>, start_tick: u64, current_tick: u64) -> bool {
    match max_wait {
        Some(wait_ticks) => current_tick - start_tick >= wait_ticks,
        None => false,
    }
}

/// Initialize the queue subsystem. There is nothing to set up.
pub fn init() {
}

impl<T: Copy> View for Queue<T> {
    type V = Seq<T>;

    /// The queued items, oldest first.
    closed spec fn view(&self) -> Seq<T> {
        Seq::new(
            self.length as nat,
            |i: int| self.data@[ring_slot(self.head as int, i, self.capacity as int)],
        )
    }
}

impl<T: Copy> Queue<T> {
    /// The queue's invariant.
    pub closed spec fn wf(&self) -> bool {
        &&& self.data@.len() == self.capacity
        &&& self.length <= self.capacity
        &&& self.capacity > 0 ==> self.head < self.capacity && self.tail == ring_slot(
            self.head as int,
            self.length as int,
            self.capacity as int,
        )
    }

    /// The number of items that the queue holds at most.
    pub closed spec fn spec_capacity(&self) -> nat {
        self.capacity as nat
    }

    /// A queue never holds more than its capacity.
    pub proof fn lemma_len_bounded(&self)
        requires
            self.wf(),
        ensures
            self@.len() <= self.spec_capacity(),
    {
    }

    /// Create a new, empty queue with specified capacity. The slots of
    /// the buffer are filled with `fill` until items take their place.
    pub fn new(capacity: usize, fill: T) -> (queue: Self)
        ensures
            queue.wf(),
            queue@ == Seq::<T>::empty(),
            queue.spec_capacity() == capacity,
    {
        let mut data: Vec<T> = Vec::with_capacity(capacity);
        let mut i: usize = 0;
        while i < capacity
            invariant
                i <= capacity,
                data@.len() == i,
            decreases capacity - i,
        {
            data.push(fill);
            i = i + 1;
        }
        let queue = Queue { data, capacity, length: 0, head: 0, tail: 0 };
        assert(queue@ =~= Seq::<T>::empty());
        queue
    }

    /// Enqueue an item if there is room. Returns whether there was.
    pub fn try_send(&mut self, item: T) -> (sent: bool)
        requires
            old(self).wf(),
        ensures
            final(self).wf(),
            final(self).spec_capacity() == old(self).spec_capacity(),
            sent == (old(self)@.len() < old(self).spec_capacity()),
            final(self)@ == if sent {
                old(self)@.push(item)
            } else {
                old(self)@
            },
    {
        let length = self.length;
        if length < self.capacity {
            // Queue has space
            let tail = self.tail;
            // Store the item
            self.data.set(tail, item);
            // Update tail pointer
            self.tail = if tail + 1 == self.capacity {
                0
            } else {
                tail + 1
            };
            // Update length
            self.length = length + 1;
            assert(self@ =~= old(self)@.push(item));
            true
        } else {
            false
        }
    }

    /// Dequeue the oldest item if there is one.
    pub fn try_receive(&mut self) -> (item: Option<T>)
        requires
            old(self).wf(),
        ensures
            final(self).wf(),
            final(self).spec_capacity() == old(self).spec_capacity(),
            old(self)@.len() == 0 ==> item is None && final(self)@ == old(self)@,
            old(self)@.len() > 0 ==> item == Some(old(self)@[0]) && final(self)@ == old(
                self,
            )@.subrange(1, old(self)@.len() as int),
    {
        let length = self.length;
        if length > 0 {
            // Queue has items
            let head = self.head;
            // Get the item
            let item = self.data[head];
            // Update head pointer
            self.head = if head + 1 == self.capacity {
                0
            } else {
                head + 1
            };
            // Update length
            self.length = length - 1;
            assert(self@ =~= old(self)@.subrange(1, old(self)@.len() as int));
            Some(item)
        } else {
            None
        }
    }

    /// Enqueue an item, one attempt at a time.
    ///
    /// The wait began at tick `start_tick`; it is tick `current_tick` now.
    /// The item is queued if there is room. If there is none, the attempt
    /// times out once `max_wait` ticks have passed, and is to be made again
    /// after the next interrupt otherwise, or if there is no limit.
    pub fn send(&mut self, item: T, max_wait: Option<u64>, start_tick: u64, current_tick: u64) -> (step:
        SendStep)
        requires
            old(self).wf(),
            start_tick <= current_tick,
        ensures
            final(self).wf(),
            final(self).spec_capacity() == old(self).spec_capacity(),
            step == if old(self)@.len() < old(self).spec_capacity() {
                SendStep::Sent
            } else if wait_over(max_wait, start_tick, current_tick) {
                SendStep::TimedOut
            } else {
                SendStep::Wait
            },
            final(self)@ == if step is Sent {
                old(self)@.push(item)
            } else {
                old(self)@
            },
    {
        if self.try_send(item) {
            return SendStep::Sent;
        }
        // Check if we've exceeded the timeout
        if let Some(wait_ticks) = max_wait {
            if current_tick - start_tick >= wait_ticks {
                return SendStep::TimedOut;
            }
        }
        // Yield to allow other tasks to run
        SendStep::Wait
    }

    /// Dequeue an item, one attempt at a time.
    ///
    /// The wait began at tick `start_tick`; it is tick `current_tick` now.
    /// The oldest item is taken if there is one. If there is none, the
    /// attempt times out once `max_wait` ticks have passed, and is to be
    /// made again after the next interrupt otherwise, or if there is no
    /// limit.
    pub fn receive(&mut self, max_wait: Option<u64>, start_tick: u64, current_tick: u64) -> (step:
        ReceiveStep<T>)
        requires
            old(self).wf(),
            start_tick <= current_tick,
        ensures
            final(self).wf(),
            final(self).spec_capacity() == old(self).spec_capacity(),
            step == if old(self)@.len() > 0 {
                ReceiveStep::Received(old(self)@[0])
            } else if wait_over(max_wait, start_tick, current_tick) {
                ReceiveStep::TimedOut
            } else {
                ReceiveStep::Wait
            },
            final(self)@ == if old(self)@.len() > 0 {
                old(self)@.subrange(1, old(self)@.len() as int)
            } else {
                old(self)@
            },
    {
        if let Some(item) = self.try_receive() {
            return ReceiveStep::Received(item);
        }
        // Check if we've exceeded the timeout
        if let Some(wait_ticks) = max_wait {
            if current_tick - start_tick >= wait_ticks {
                return ReceiveStep::TimedOut;
            }
        }
        // Yield to allow other tasks to run
        ReceiveStep::Wait
    }

    /// Check if queue is empty
    pub fn is_empty(&self) -> (empty: bool)
        requires
            self.wf(),
        ensures
            empty == (self@.len() == 0),
    {
        self.length == 0
    }

    /// Check if queue is full
    pub fn is_full(&self) -> (full: bool)
        requires
            self.wf(),
        ensures
            full == (self@.len() == self.spec_capacity()),
    {
        self.length == self.capacity
    }

    /// Get current number of items in the queue
    pub fn len(&self) -> (length: usize)
        requires
            self.wf(),
        ensures
            length == self@.len(),
    {
        self.length
    }
}

} // verus!
