//! Microphone transport: a bounded single-producer/single-consumer ring
//! buffer of mono samples, carried by the `ringbuf` crate.
//!
//! The producer side never blocks: pushing into a full buffer drops the
//! sample. The consumer side never blocks: popping from an empty buffer
//! reports nothing, and the caller substitutes silence.

use vstd::prelude::*;
use ringbuf::traits::{Consumer, Producer};

verus! {

/// A bounded queue of mono samples. The `ringbuf` buffer inside is opaque
/// to verification; its contents and capacity are named below and every
/// access goes through the contracts here.
#[verifier::external_body]
pub struct MicRing {
    rb: ringbuf::HeapRb<i32>,
}

/// The samples currently queued, oldest first.
pub uninterp spec fn ring_contents(r: &MicRing) -> Seq<i32>;

/// The fixed capacity the ring was created with.
pub uninterp spec fn ring_capacity(r: &MicRing) -> int;

impl MicRing {
    /// Relies on ringbuf's `HeapRb::new`: a fresh buffer is empty and holds
    /// at most `capacity` items. `HeapRb::new` panics on capacity zero.
    #[verifier::external_body]
    pub fn new(capacity: usize) -> (r: MicRing)
        requires
            capacity >= 1,
        ensures
            ring_contents(&r) == Seq::<i32>::empty(),
            ring_capacity(&r) == capacity as int,
    {
        MicRing { rb: ringbuf::HeapRb::new(capacity) }
    }

    /// Relies on ringbuf's `Producer::try_push`: when the buffer is not
    /// full the sample is appended at the back and `Ok` comes back; when it
    /// is full the sample is returned in `Err` and nothing changes. The
    /// call never blocks and never panics.
    #[verifier::external_body]
    pub fn try_push(&mut self, sample: i32) -> (pushed: bool)
        ensures
            ring_capacity(final(self)) == ring_capacity(old(self)),
            ring_contents(old(self)).len() < ring_capacity(old(self)) ==> pushed
                && ring_contents(final(self)) == ring_contents(old(self)).push(sample),
            ring_contents(old(self)).len() >= ring_capacity(old(self)) ==> !pushed
                && ring_contents(final(self)) == ring_contents(old(self)),
    {
        self.rb.try_push(sample).is_ok()
    }

    /// Relies on ringbuf's `Consumer::try_pop`: the oldest sample comes out
    /// of a non-empty buffer; an empty buffer reports `None` and stays
    /// empty. The call never blocks and never panics.
    #[verifier::external_body]
    pub fn try_pop(&mut self) -> (r: Option<i32>)
        ensures
            ring_capacity(final(self)) == ring_capacity(old(self)),
            ring_contents(old(self)).len() > 0 ==> r == Some(ring_contents(old(self)).first())
                && ring_contents(final(self)) == ring_contents(old(self)).drop_first(),
            ring_contents(old(self)).len() == 0 ==> r is None && ring_contents(final(self))
                == ring_contents(old(self)),
    {
        self.rb.try_pop()
    }
}

} // verus!
