//! The queue of mailboxes that have messages ready for processing.

use vstd::prelude::*;
use crossbeam_queue::SegQueue;

verus! {

/// Declares `crossbeam_queue::SegQueue`.
#[verifier::external_type_specification]
#[verifier::external_body]
#[verifier::reject_recursive_types(T)]
pub struct ExSegQueue<T>(SegQueue<T>);

/// The mailbox handles a segmented queue holds, oldest first.
pub uninterp spec fn seg_queue_contents(q: SegQueue<u64>) -> Seq<u64>;

/// Calls `SegQueue::new`: an empty queue.
#[verifier::external_body]
fn seg_queue_new() -> (q: SegQueue<u64>)
    ensures
        seg_queue_contents(q) == Seq::<u64>::empty(),
{
    SegQueue::new()
}

/// Calls `SegQueue::push`: appends the handle at the back.
#[verifier::external_body]
fn seg_queue_push(q: &mut SegQueue<u64>, handle: u64)
    ensures
        seg_queue_contents(*final(q)) == seg_queue_contents(*old(q)).push(handle),
{
    q.push(handle)
}

/// Calls `SegQueue::pop`: removes and returns the front handle, or `None` when empty.
#[verifier::external_body]
fn seg_queue_pop(q: &mut SegQueue<u64>) -> (r: Option<u64>)
    ensures
        seg_queue_contents(*old(q)).len() == 0 ==> r is None && seg_queue_contents(*final(q)) == seg_queue_contents(*old(q)),
        seg_queue_contents(*old(q)).len() > 0 ==> {
            &&& r == Some(seg_queue_contents(*old(q))[0])
            &&& seg_queue_contents(*final(q)) == seg_queue_contents(*old(q)).drop_first()
        },
{
    q.pop()
}

/// Calls `SegQueue::len`: the number of queued handles.
#[verifier::external_body]
fn seg_queue_len(q: &SegQueue<u64>) -> (n: usize)
    ensures
        n == seg_queue_contents(*q).len(),
{
    q.len()
}

/// Calls `SegQueue::is_empty`: whether no handle is queued.
#[verifier::external_body]
fn seg_queue_is_empty(q: &SegQueue<u64>) -> (b: bool)
    ensures
        b == (seg_queue_contents(*q).len() == 0),
{
    q.is_empty()
}

/// A FIFO queue of the handles of mailboxes that have messages ready. Workers
/// take mailboxes from the front; a mailbox that still has messages after a
/// batch goes back to the end.
pub struct SchedulingQueue {
    queue: SegQueue<u64>,
    max_capacity: usize,
}

impl View for SchedulingQueue {
    type V = Seq<u64>;

    closed spec fn view(&self) -> Seq<u64> {
        seg_queue_contents(self.queue)
    }
}

impl SchedulingQueue {
    /// The capacity recorded for monitoring (the queue itself is unbounded).
    pub closed spec fn spec_max_capacity(&self) -> nat {
        self.max_capacity as nat
    }

    /// An empty queue that records `max_capacity` for monitoring.
    pub fn new(max_capacity: usize) -> (q: Self)
        ensures
            q@ == Seq::<u64>::empty(),
            q.spec_max_capacity() == max_capacity,
    {
        SchedulingQueue { queue: seg_queue_new(), max_capacity }
    }

    /// Appends a mailbox handle. The queue has no bound.
    pub fn push(&mut self, mailbox: u64)
        ensures
            final(self)@ == old(self)@.push(mailbox),
            final(self).spec_max_capacity() == old(self).spec_max_capacity(),
    {
        seg_queue_push(&mut self.queue, mailbox)
    }

    /// Removes and returns the oldest handle, or `None` when the queue is empty.
    pub fn try_pop(&mut self) -> (r: Option<u64>)
        ensures
            r == (if old(self)@.len() > 0 { Some(old(self)@[0]) } else { None::<u64> }),
            final(self)@ == (if old(self)@.len() > 0 { old(self)@.drop_first() } else { old(self)@ }),
            final(self).spec_max_capacity() == old(self).spec_max_capacity(),
    {
        seg_queue_pop(&mut self.queue)
    }

    /// The number of queued handles.
    pub fn len(&self) -> (n: usize)
        ensures
            n == self@.len(),
    {
        seg_queue_len(&self.queue)
    }

    /// Whether no handle is queued.
    pub fn is_empty(&self) -> (b: bool)
        ensures
            b == (self@.len() == 0),
    {
        seg_queue_is_empty(&self.queue)
    }

    /// The capacity recorded for monitoring.
    pub fn max_capacity(&self) -> (n: usize)
        ensures
            n == self.spec_max_capacity(),
    {
        self.max_capacity
    }
}

} // verus!
