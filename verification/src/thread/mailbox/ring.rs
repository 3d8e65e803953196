//! The ring buffer of the `ringbuf` crate, holding message ids.

use vstd::prelude::*;
use ringbuf::traits::{Consumer, Observer, Producer};
use ringbuf::HeapRb;

verus! {

/// A `ringbuf::HeapRb` of message ids. Verus refuses a declaration of
/// `ringbuf::SharedRb` (its bound names the crate's `Storage` trait), so the
/// buffer is held here, out of Verus's sight, and reached only through the
/// functions below.
#[verifier::external_body]
pub struct RingBuffer {
    rb: HeapRb<u64>,
}

/// The message ids a ring buffer holds, oldest first.
pub uninterp spec fn ring_contents(rb: RingBuffer) -> Seq<u64>;

/// The capacity a ring buffer was created with.
pub uninterp spec fn ring_capacity(rb: RingBuffer) -> nat;

/// Calls `HeapRb::new`: an empty ring buffer of the given capacity.
/// The crate panics on a zero capacity, which `requires` leaves out.
#[verifier::external_body]
pub(crate) fn ring_new(capacity: usize) -> (rb: RingBuffer)
    requires
        capacity > 0,
    ensures
        ring_contents(rb) == Seq::<u64>::empty(),
        ring_capacity(rb) == capacity,
{
    RingBuffer { rb: HeapRb::<u64>::new(capacity) }
}

/// Calls `Producer::try_push`: appends the id when the buffer holds fewer items
/// than its capacity and returns it back (`Err`) otherwise, leaving the buffer as it was.
#[verifier::external_body]
pub(crate) fn ring_try_push(rb: &mut RingBuffer, id: u64) -> (r: Result<(), u64>)
    ensures
        ring_capacity(*final(rb)) == ring_capacity(*old(rb)),
        ring_contents(*old(rb)).len() < ring_capacity(*old(rb)) ==> {
            &&& r is Ok
            &&& ring_contents(*final(rb)) == ring_contents(*old(rb)).push(id)
        },
        ring_contents(*old(rb)).len() >= ring_capacity(*old(rb)) ==> {
            &&& r == Err::<(), u64>(id)
            &&& ring_contents(*final(rb)) == ring_contents(*old(rb))
        },
{
    rb.rb.try_push(id)
}

/// Calls `Consumer::try_pop`: removes and returns the oldest id, or `None` when empty.
#[verifier::external_body]
pub(crate) fn ring_try_pop(rb: &mut RingBuffer) -> (r: Option<u64>)
    ensures
        ring_capacity(*final(rb)) == ring_capacity(*old(rb)),
        ring_contents(*old(rb)).len() == 0 ==> {
            &&& r is None
            &&& ring_contents(*final(rb)) == ring_contents(*old(rb))
        },
        ring_contents(*old(rb)).len() > 0 ==> {
            &&& r == Some(ring_contents(*old(rb))[0])
            &&& ring_contents(*final(rb)) == ring_contents(*old(rb)).drop_first()
        },
{
    rb.rb.try_pop()
}

/// Calls `Observer::is_full`: whether the buffer holds as many items as its capacity.
#[verifier::external_body]
pub(crate) fn ring_is_full(rb: &RingBuffer) -> (b: bool)
    ensures
        b == (ring_contents(*rb).len() >= ring_capacity(*rb)),
{
    rb.rb.is_full()
}

/// Calls `Observer::is_empty`: whether the buffer holds no item.
#[verifier::external_body]
pub(crate) fn ring_is_empty(rb: &RingBuffer) -> (b: bool)
    ensures
        b == (ring_contents(*rb).len() == 0),
{
    rb.rb.is_empty()
}

} // verus!
