//! A bounded first-in first-out queue of audio samples, kept in a
//! heap-allocated ring buffer of the `ringbuf` crate.

use ringbuf::HeapRb;
use ringbuf::traits::{Consumer, Observer, Producer};
use vstd::prelude::*;

verus! {

/// A ring buffer of samples. The buffer itself belongs to `ringbuf`; what it
/// holds is known through [`ring_contents`] and [`ring_capacity`].
#[verifier::external_body]
pub struct SampleRing {
    inner: HeapRb<u32>,
}

/// The samples that a ring buffer holds, oldest first.
pub uninterp spec fn ring_contents(rb: SampleRing) -> Seq<u32>;

/// The number of samples that a ring buffer was made to hold.
pub uninterp spec fn ring_capacity(rb: SampleRing) -> nat;

/// `HeapRb::new`: an empty ring buffer of exactly the capacity asked for.
/// It panics on a capacity of zero, which the precondition leaves out.
#[verifier::external_body]
pub(crate) fn ring_new(capacity: usize) -> (rb: SampleRing)
    requires
        capacity > 0,
    ensures
        ring_contents(rb) == Seq::<u32>::empty(),
        ring_capacity(rb) == capacity,
{
    SampleRing { inner: HeapRb::new(capacity) }
}

/// `Producer::try_push`: appends the sample behind the newest one unless the
/// buffer is full; a full buffer is left as it was and the sample is refused.
#[verifier::external_body]
pub(crate) fn ring_try_push(rb: &mut SampleRing, sample: u32) -> (accepted: bool)
    ensures
        accepted == (ring_contents(*old(rb)).len() < ring_capacity(*old(rb))),
        accepted ==> ring_contents(*final(rb)) == ring_contents(*old(rb)).push(sample),
        !accepted ==> ring_contents(*final(rb)) == ring_contents(*old(rb)),
        ring_capacity(*final(rb)) == ring_capacity(*old(rb)),
{
    rb.inner.try_push(sample).is_ok()
}

/// `Consumer::try_pop`: removes and returns the oldest sample, or returns
/// `None` and changes nothing when the buffer is empty.
#[verifier::external_body]
pub(crate) fn ring_try_pop(rb: &mut SampleRing) -> (sample: Option<u32>)
    ensures
        ring_contents(*old(rb)).len() == 0 ==> sample.is_none() && ring_contents(*final(rb))
            == ring_contents(*old(rb)),
        ring_contents(*old(rb)).len() > 0 ==> sample == Some(ring_contents(*old(rb))[0])
            && ring_contents(*final(rb)) == ring_contents(*old(rb)).skip(1),
        ring_capacity(*final(rb)) == ring_capacity(*old(rb)),
{
    rb.inner.try_pop()
}

/// `Observer::occupied_len`: the number of samples held.
#[verifier::external_body]
pub(crate) fn ring_occupied_len(rb: &SampleRing) -> (n: usize)
    ensures
        n == ring_contents(*rb).len(),
{
    rb.inner.occupied_len()
}

} // verus!
