//! The capture consumer side: the reader handle callers receive keys
//! from, and the process-wide shutdown flag the capture loop observes.
//!
//! The capture thread forwards normalized keys over a bounded consumer
//! channel; a slow consumer blocks forwarding, nothing is dropped. The
//! shutdown flag starts true — running — and is cleared exactly once by a
//! signal handler with a single atomic store; everything else only reads
//! it. The flag is passed in explicitly so the dependency is visible at
//! the call site.

use crate::channel::BoundedChannel;
use crate::keys::Key;
use core::sync::atomic::AtomicBool;
use core::sync::atomic::Ordering;
use vstd::prelude::*;

verus! {

/// Capacity of the consumer channel from the capture loop to the caller.
pub const CONSUMER_CHANNEL_CAPACITY: usize = 4096;

/// The caller's handle on the stream of normalized keys.
pub struct InputReader {
    chan: BoundedChannel<Key>,
}

impl InputReader {
    /// The keys forwarded and not yet received, oldest first.
    pub closed spec fn contents(self) -> Seq<Key> {
        self.chan.contents()
    }

    /// The fixed capacity of the consumer channel.
    pub closed spec fn capacity(self) -> int {
        self.chan.capacity()
    }

    /// A reader with an empty consumer channel of the fixed capacity.
    pub fn new() -> (r: InputReader)
        ensures
            r.contents() == Seq::<Key>::empty(),
            r.capacity() == CONSUMER_CHANNEL_CAPACITY,
    {
        InputReader { chan: BoundedChannel::new(CONSUMER_CHANNEL_CAPACITY) }
    }

    /// The capture side offers one normalized key. Below capacity it is
    /// queued in order; at capacity the offer is refused and nothing is
    /// dropped — the capture loop blocks until the consumer advances.
    pub fn forward(&mut self, key: Key) -> (ok: bool)
        ensures
            final(self).capacity() == old(self).capacity(),
            old(self).contents().len() < old(self).capacity() ==> ok && final(self).contents()
                == old(self).contents().push(key),
            old(self).contents().len() >= old(self).capacity() ==> !ok && final(self).contents()
                == old(self).contents(),
    {
        self.chan.try_send(key)
    }

    /// Pulls the next normalized key, in FIFO order, if one is queued.
    pub fn receive(&mut self) -> (r: Option<Key>)
        ensures
            final(self).capacity() == old(self).capacity(),
            old(self).contents().len() == 0 ==> r is None && final(self).contents() == old(self).contents(),
            old(self).contents().len() > 0 ==> r == Some(old(self).contents()[0])
                && final(self).contents() == old(self).contents().skip(1),
    {
        self.chan.recv()
    }
}

/// A fresh shutdown flag, initially running.
pub fn shutdown_flag() -> AtomicBool {
    AtomicBool::new(true)
}

/// Reads the shutdown flag: true while the session runs. The flag is
/// shared across threads, so nothing is promised of the value; the loop
/// decisions take the observed value as an input and hold for either.
pub fn is_running(flag: &AtomicBool) -> bool {
    flag.load(Ordering::Relaxed)
}

/// Requests shutdown with the single atomic store a signal handler is
/// allowed: no allocation, no further calls.
pub fn request_shutdown(flag: &AtomicBool) {
    flag.store(false, Ordering::Relaxed)
}

} // verus!
