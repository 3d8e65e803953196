//! A multi-producer, single-consumer mailbox over a bounded `flume` channel.

use vstd::prelude::*;
use crate::thread::config::BackpressureStrategy;
use crate::thread::error::MailboxError;
use crate::thread::mailbox::{
    answers, answers_at_once, model_after_close, model_after_pop, model_after_push, pop_result,
    push_verdict, MailboxModel,
};
use crate::thread::mailbox::channels::{
    flume_bound, flume_bounded, flume_is_empty, flume_len, flume_linked, flume_queue, flume_try_recv,
    flume_try_send, SendAttempt,
};

verus! {

/// A multi-producer, single-consumer mailbox over a bounded `flume` channel,
/// with a ready flag that tells a scheduler the mailbox has work. A capacity of
/// 0 makes a rendezvous channel, which, without a waiting receiver, is always full.
pub struct MpscMailbox {
    sender: flume::Sender<u64>,
    receiver: flume::Receiver<u64>,
    path: String,
    capacity: usize,
    is_ready: bool,
    is_closed: bool,
}

impl View for MpscMailbox {
    type V = MailboxModel;

    closed spec fn view(&self) -> MailboxModel {
        MailboxModel {
            queue: flume_queue(self.receiver),
            capacity: self.capacity as nat,
            closed: self.is_closed,
            ready: self.is_ready,
            path: self.path@,
        }
    }
}

impl MpscMailbox {
    /// The mailbox's internal consistency: both ends belong to one channel whose
    /// bound is the mailbox's capacity, and it holds at most that many ids.
    pub closed spec fn wf(&self) -> bool {
        &&& flume_linked(self.sender, self.receiver)
        &&& flume_bound(self.receiver) == self.capacity
        &&& flume_queue(self.receiver).len() <= self.capacity
    }

    /// A consistent mailbox holds at most its capacity.
    pub proof fn lemma_within_capacity(&self)
        requires
            self.wf(),
        ensures
            self@.queue.len() <= self@.capacity,
    {
    }

    /// Creates an empty, open mailbox with the given capacity.
    pub fn new(capacity: usize, path: String) -> (m: Self)
        ensures
            m.wf(),
            m@ == (MailboxModel {
                queue: Seq::empty(),
                capacity: capacity as nat,
                closed: false,
                ready: false,
                path: path@,
            }),
    {
        let (sender, receiver) = flume_bounded(capacity);
        MpscMailbox { sender, receiver, path, capacity, is_ready: false, is_closed: false }
    }

    /// Pushes message `id` with the given backpressure strategy. A closed mailbox
    /// refuses with `Closed`; otherwise a full mailbox drops `id` (`DropNewest`),
    /// refuses with `Full` (`Error`) or drops its oldest id to make room
    /// (`DropOldest`; a zero-capacity mailbox has none to drop and refuses). A
    /// `Block` push into a full, open mailbox waits for space, which the caller
    /// does (until `block_step` answers) before calling.
    pub fn push(&mut self, id: u64, strategy: BackpressureStrategy) -> (r: Result<(), MailboxError>)
        requires
            old(self).wf(),
            answers_at_once(old(self)@, strategy),
        ensures
            final(self).wf(),
            final(self)@ == model_after_push(old(self)@, id, strategy),
            answers(r, push_verdict(old(self)@.queue, old(self)@.capacity, old(self)@.closed, strategy), old(self)@.capacity),
    {
        if self.is_closed {
            return Err(MailboxError::Closed);
        }
        match strategy {
            BackpressureStrategy::DropNewest => {
                match flume_try_send(&self.sender, &mut self.receiver, id) {
                    SendAttempt::Sent => {
                        self.is_ready = true;
                        Ok(())
                    },
                    SendAttempt::Full => Ok(()),
                    SendAttempt::Disconnected => Err(MailboxError::Closed),
                }
            },
            BackpressureStrategy::Block | BackpressureStrategy::Error => {
                match flume_try_send(&self.sender, &mut self.receiver, id) {
                    SendAttempt::Sent => {
                        self.is_ready = true;
                        Ok(())
                    },
                    SendAttempt::Full => Err(MailboxError::Full { capacity: self.capacity }),
                    SendAttempt::Disconnected => Err(MailboxError::Closed),
                }
            },
            BackpressureStrategy::DropOldest => {
                if flume_len(&self.receiver) >= self.capacity {
                    let _ = flume_try_recv(&mut self.receiver);
                }
                match flume_try_send(&self.sender, &mut self.receiver, id) {
                    SendAttempt::Sent => {
                        self.is_ready = true;
                        Ok(())
                    },
                    SendAttempt::Full => Err(MailboxError::PushError(
                        String::from_str("Failed to push message after dropping oldest"),
                    )),
                    SendAttempt::Disconnected => Err(MailboxError::Closed),
                }
            },
        }
    }

    /// Removes and returns the oldest id, or `None` when empty. The ready flag
    /// afterwards tells whether ids remain.
    pub fn pop(&mut self) -> (r: Option<u64>)
        requires
            old(self).wf(),
        ensures
            final(self).wf(),
            r == pop_result(old(self)@),
            final(self)@ == model_after_pop(old(self)@),
    {
        self.is_ready = false;
        match flume_try_recv(&mut self.receiver) {
            Some(id) => {
                if !flume_is_empty(&self.receiver) {
                    self.is_ready = true;
                }
                Some(id)
            },
            None => None,
        }
    }

    /// Whether no id is queued.
    pub fn is_empty(&self) -> (b: bool)
        ensures
            b == (self@.queue.len() == 0),
    {
        flume_is_empty(&self.receiver)
    }

    /// The number of queued ids.
    pub fn len(&self) -> (n: usize)
        ensures
            n == self@.queue.len(),
    {
        flume_len(&self.receiver)
    }

    /// The most ids the mailbox holds.
    pub fn capacity(&self) -> (n: usize)
        ensures
            n == self@.capacity,
    {
        self.capacity
    }

    /// Path of the actor the mailbox belongs to.
    pub fn path(&self) -> (p: &String)
        ensures
            p@ == self@.path,
    {
        &self.path
    }

    /// Whether the mailbox was closed.
    pub fn is_closed(&self) -> (b: bool)
        ensures
            b == self@.closed,
    {
        self.is_closed
    }

    /// Whether the mailbox signals that it has work.
    pub fn is_ready(&self) -> (b: bool)
        ensures
            b == self@.ready,
    {
        self.is_ready
    }

    /// Marks the mailbox as having work.
    pub fn signal_ready(&mut self)
        ensures
            final(self)@ == (MailboxModel { ready: true, ..old(self)@ }),
            old(self).wf() ==> final(self).wf(),
    {
        self.is_ready = true;
    }

    /// Closes the mailbox and drops every queued id; later pushes fail with `Closed`.
    pub fn close(&mut self)
        requires
            old(self).wf(),
        ensures
            final(self).wf(),
            final(self)@ == model_after_close(old(self)@),
    {
        self.is_closed = true;
        while !flume_is_empty(&self.receiver)
            invariant
                self.wf(),
                self.is_closed,
                self.capacity == old(self).capacity,
                self.path@ == old(self).path@,
                self.is_ready == old(self).is_ready,
            decreases flume_queue(self.receiver).len(),
        {
            let _ = flume_try_recv(&mut self.receiver);
        }
        assert(flume_queue(self.receiver) =~= Seq::<u64>::empty());
    }
}

} // verus!
