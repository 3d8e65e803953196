//! A single-producer, single-consumer mailbox over a `ringbuf` ring buffer.

use vstd::prelude::*;
use crate::thread::config::BackpressureStrategy;
use crate::thread::error::MailboxError;
use crate::thread::mailbox::{
    answers, answers_at_once, full, model_after_close, model_after_pop, model_after_push, pop_result,
    push_verdict, MailboxModel,
};
use crate::thread::mailbox::ring::{
    ring_capacity, ring_contents, ring_is_empty, ring_is_full, ring_new, ring_try_pop, ring_try_push,
    RingBuffer,
};

verus! {

/// Milliseconds a `Block` push into a full ring buffer waits between looks for space.
pub const RINGBUF_BLOCK_WAIT_MILLIS: u64 = 5;

/// A single-producer, single-consumer mailbox over a `ringbuf` ring buffer,
/// with a message count and a ready flag.
pub struct SpscRingbufMailbox {
    ring: RingBuffer,
    path: String,
    capacity: usize,
    is_ready: bool,
    is_closed: bool,
    message_count: usize,
}

impl View for SpscRingbufMailbox {
    type V = MailboxModel;

    closed spec fn view(&self) -> MailboxModel {
        MailboxModel {
            queue: ring_contents(self.ring),
            capacity: self.capacity as nat,
            closed: self.is_closed,
            ready: self.is_ready,
            path: self.path@,
        }
    }
}

impl SpscRingbufMailbox {
    /// The mailbox's internal consistency: the buffer has the mailbox's capacity,
    /// holds at most that many ids, and the count matches it.
    pub closed spec fn wf(&self) -> bool {
        &&& self.capacity > 0
        &&& ring_capacity(self.ring) == self.capacity
        &&& ring_contents(self.ring).len() <= self.capacity
        &&& self.message_count == ring_contents(self.ring).len()
    }

    /// A consistent mailbox holds at most its capacity.
    pub proof fn lemma_within_capacity(&self)
        requires
            self.wf(),
        ensures
            self@.queue.len() <= self@.capacity,
    {
    }

    /// Creates an empty, open mailbox. The ring buffer needs a capacity of at least 1.
    pub fn new(capacity: usize, path: String) -> (m: Self)
        requires
            capacity > 0,
        ensures
            m.wf(),
            m@ == (MailboxModel {
                queue: Seq::empty(),
                capacity: capacity as nat,
                closed: false,
                ready: false,
                path: path@,
            }),
    {
        SpscRingbufMailbox {
            ring: ring_new(capacity),
            path,
            capacity,
            is_ready: false,
            is_closed: false,
            message_count: 0,
        }
    }

    /// Appends `id` to a mailbox that has room.
    fn push_now(&mut self, id: u64, failure: &str) -> (r: Result<(), MailboxError>)
        requires
            old(self).wf(),
            !full(old(self)@.queue, old(self)@.capacity),
        ensures
            final(self).wf(),
            r is Ok,
            final(self)@ == (MailboxModel { queue: old(self)@.queue.push(id), ready: true, ..old(self)@ }),
    {
        match ring_try_push(&mut self.ring, id) {
            Ok(()) => {
                self.message_count = self.message_count + 1;
                self.is_ready = true;
                Ok(())
            },
            Err(_) => Err(MailboxError::PushError(String::from_str(failure))),
        }
    }

    /// Pushes message `id` with the given backpressure strategy. A closed mailbox
    /// refuses with `Closed`; otherwise a full mailbox drops `id` (`DropNewest`),
    /// refuses with `Full` (`Error`) or drops its oldest id to make room
    /// (`DropOldest`). A `Block` push into a full, open mailbox waits, which the
    /// caller does (see `block_step`) before calling.
    pub fn push(&mut self, id: u64, strategy: BackpressureStrategy) -> (r: Result<(), MailboxError>)
        requires
            old(self).wf(),
            answers_at_once(old(self)@, strategy),
        ensures
            final(self).wf(),
            final(self)@ == model_after_push(old(self)@, id, strategy),
            answers(r, push_verdict(old(self)@.queue, old(self)@.capacity, old(self)@.closed, strategy), old(self)@.capacity),
    {
        if self.is_closed {
            return Err(MailboxError::Closed);
        }
        match strategy {
            BackpressureStrategy::DropNewest => {
                if ring_is_full(&self.ring) {
                    Ok(())
                } else {
                    self.push_now(id, "Failed to push message (ringbuf error)")
                }
            },
            BackpressureStrategy::Block => {
                self.push_now(id, "Failed to push message (ringbuf error)")
            },
            BackpressureStrategy::Error => {
                if ring_is_full(&self.ring) {
                    Err(MailboxError::Full { capacity: self.capacity })
                } else {
                    self.push_now(id, "Failed to push message (ringbuf error)")
                }
            },
            BackpressureStrategy::DropOldest => {
                if ring_is_full(&self.ring) {
                    if !ring_is_empty(&self.ring) {
                        let _ = ring_try_pop(&mut self.ring);
                        self.message_count = self.message_count - 1;
                    }
                    self.push_now(id, "Failed to push message after dropping oldest (ringbuf error)")
                } else {
                    self.push_now(id, "Failed to push message (ringbuf error)")
                }
            },
        }
    }

    /// Removes and returns the oldest id, or `None` when empty. The ready flag
    /// afterwards tells whether ids remain.
    pub fn pop(&mut self) -> (r: Option<u64>)
        requires
            old(self).wf(),
        ensures
            final(self).wf(),
            r == pop_result(old(self)@),
            final(self)@ == model_after_pop(old(self)@),
    {
        self.is_ready = false;
        if ring_is_empty(&self.ring) {
            return None;
        }
        let r = ring_try_pop(&mut self.ring);
        self.message_count = self.message_count - 1;
        if !ring_is_empty(&self.ring) {
            self.is_ready = true;
        }
        r
    }

    /// Whether no id is queued.
    pub fn is_empty(&self) -> (b: bool)
        requires
            self.wf(),
        ensures
            b == (self@.queue.len() == 0),
    {
        self.message_count == 0
    }

    /// The number of queued ids.
    pub fn len(&self) -> (n: usize)
        requires
            self.wf(),
        ensures
            n == self@.queue.len(),
    {
        self.message_count
    }

    /// The most ids the mailbox holds.
    pub fn capacity(&self) -> (n: usize)
        ensures
            n == self@.capacity,
    {
        self.capacity
    }

    /// Path of the actor the mailbox belongs to.
    pub fn path(&self) -> (p: &String)
        ensures
            p@ == self@.path,
    {
        &self.path
    }

    /// Whether the mailbox was closed.
    pub fn is_closed(&self) -> (b: bool)
        ensures
            b == self@.closed,
    {
        self.is_closed
    }

    /// Whether the mailbox signals that it has work.
    pub fn is_ready(&self) -> (b: bool)
        ensures
            b == self@.ready,
    {
        self.is_ready
    }

    /// Marks the mailbox as having work.
    pub fn signal_ready(&mut self)
        ensures
            final(self)@ == (MailboxModel { ready: true, ..old(self)@ }),
            old(self).wf() ==> final(self).wf(),
    {
        self.is_ready = true;
    }

    /// Closes the mailbox and drops every queued id; later pushes fail with `Closed`.
    pub fn close(&mut self)
        requires
            old(self).wf(),
        ensures
            final(self).wf(),
            final(self)@ == model_after_close(old(self)@),
    {
        self.is_closed = true;
        while !ring_is_empty(&self.ring)
            invariant
                self.wf(),
                self.is_closed,
                self.capacity == old(self).capacity,
                self.path@ == old(self).path@,
                self.is_ready == old(self).is_ready,
            decreases ring_contents(self.ring).len(),
        {
            let _ = ring_try_pop(&mut self.ring);
            self.message_count = self.message_count - 1;
        }
        assert(ring_contents(self.ring) =~= Seq::<u64>::empty());
    }
}

} // verus!
