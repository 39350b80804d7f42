//! The bounded FIFO action queue between producers and one worker.
//!
//! Capacity is fixed at construction and never resized. A send on a full
//! queue is refused — never dropped, never buffered unboundedly — which is
//! the backpressure that blocks a producer until the consumer advances by
//! at least one slot. In the threaded runtime an operating-system channel
//! of the same capacity carries the messages between threads; this type is
//! the verified queue the single-threaded embedding and the contracts
//! speak of.

use vstd::prelude::*;

verus! {

/// A bounded multi-producer, single-consumer FIFO queue.
pub struct BoundedChannel<T> {
    items: Vec<T>,
    capacity: usize,
}

impl<T> BoundedChannel<T> {
    /// The queued items, oldest first.
    pub closed spec fn contents(self) -> Seq<T> {
        self.items@
    }

    /// The capacity the queue was constructed with.
    pub closed spec fn capacity(self) -> int {
        self.capacity as int
    }

    /// An empty queue with the given fixed capacity.
    pub fn new(capacity: usize) -> (c: BoundedChannel<T>)
        requires
            capacity >= 1,
        ensures
            c.contents() == Seq::<T>::empty(),
            c.capacity() == capacity,
    {
        BoundedChannel { items: Vec::new(), capacity }
    }

    /// How many items are queued.
    pub fn len(&self) -> (n: usize)
        ensures
            n == self.contents().len(),
    {
        self.items.len()
    }

    /// Whether the queue holds as many items as its capacity.
    pub fn is_full(&self) -> (r: bool)
        ensures
            r == (self.contents().len() >= self.capacity()),
    {
        self.items.len() >= self.capacity
    }

    /// Offers one item. Below capacity it is appended at the back; at
    /// capacity the offer is refused and the queue is left exactly as it
    /// was — backpressure, not dropping. A refused producer retries once
    /// the consumer has advanced by at least one slot.
    pub fn try_send(&mut self, item: T) -> (ok: bool)
        ensures
            final(self).capacity() == old(self).capacity(),
            old(self).contents().len() < old(self).capacity() ==> ok && final(self).contents()
                == old(self).contents().push(item),
            old(self).contents().len() >= old(self).capacity() ==> !ok && final(self).contents()
                == old(self).contents(),
    {
        if self.items.len() < self.capacity {
            self.items.push(item);
            true
        } else {
            false
        }
    }

    /// Takes the oldest item, if any: the receive side is FIFO.
    pub fn recv(&mut self) -> (r: Option<T>)
        ensures
            final(self).capacity() == old(self).capacity(),
            old(self).contents().len() == 0 ==> r is None && final(self).contents() == old(self).contents(),
            old(self).contents().len() > 0 ==> r == Some(old(self).contents()[0])
                && final(self).contents() == old(self).contents().skip(1),
    {
        if self.items.len() == 0 {
            None
        } else {
            let item = self.items.remove(0);
            proof {
                assert(final(self).items@ =~= old(self).items@.skip(1));
            }
            Some(item)
        }
    }
}

} // verus!
