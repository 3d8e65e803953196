//! A single-producer, single-consumer mailbox over a bounded `tokio` channel.

use vstd::prelude::*;
use crate::thread::config::BackpressureStrategy;
use crate::thread::error::MailboxError;
use crate::thread::mailbox::{
    after_push, answers, answers_at_once, pop_result, push_verdict, MailboxModel,
};
use crate::thread::mailbox::channels::{
    tokio_bound, tokio_channel, tokio_linked, tokio_max_buffer, tokio_queue, tokio_try_recv,
    tokio_try_send, SendAttempt,
};

verus! {

/// A single-producer, single-consumer mailbox over a bounded
/// `tokio::sync::mpsc` channel, with a message count. It keeps no ready flag.
pub struct SpscMailbox {
    sender: tokio::sync::mpsc::Sender<u64>,
    receiver: tokio::sync::mpsc::Receiver<u64>,
    path: String,
    capacity: usize,
    message_count: usize,
    is_closed: bool,
}

impl View for SpscMailbox {
    type V = MailboxModel;

    closed spec fn view(&self) -> MailboxModel {
        MailboxModel {
            queue: tokio_queue(self.receiver),
            capacity: self.capacity as nat,
            closed: self.is_closed,
            ready: false,
            path: self.path@,
        }
    }
}

impl SpscMailbox {
    /// The mailbox's internal consistency: both ends belong to one channel whose
    /// buffer is the mailbox's capacity, it holds at most that many ids, and the
    /// count matches it.
    pub closed spec fn wf(&self) -> bool {
        &&& tokio_linked(self.sender, self.receiver)
        &&& tokio_bound(self.receiver) == self.capacity
        &&& 0 < self.capacity <= tokio_max_buffer()
        &&& tokio_queue(self.receiver).len() <= self.capacity
        &&& self.message_count == tokio_queue(self.receiver).len()
    }

    /// A consistent mailbox holds at most its capacity.
    pub proof fn lemma_within_capacity(&self)
        requires
            self.wf(),
        ensures
            self@.queue.len() <= self@.capacity,
    {
    }

    /// Creates an empty, open mailbox. Tokio needs a buffer between 1 and
    /// `usize::MAX >> 3`.
    pub fn new(capacity: usize, path: String) -> (m: Self)
        requires
            0 < capacity <= tokio_max_buffer(),
        ensures
            m.wf(),
            m@ == (MailboxModel {
                queue: Seq::empty(),
                capacity: capacity as nat,
                closed: false,
                ready: false,
                path: path@,
            }),
    {
        let (sender, receiver) = tokio_channel(capacity);
        SpscMailbox { sender, receiver, path, capacity, message_count: 0, is_closed: false }
    }

    /// Sends `id` and counts it when the channel took it.
    fn send_counted(&mut self, id: u64) -> (r: SendAttempt)
        requires
            old(self).wf(),
        ensures
            final(self).wf(),
            final(self)@.capacity == old(self)@.capacity,
            final(self)@.closed == old(self)@.closed,
            final(self)@.path == old(self)@.path,
            old(self)@.queue.len() < old(self)@.capacity ==> {
                &&& r is Sent
                &&& final(self)@.queue == old(self)@.queue.push(id)
            },
            old(self)@.queue.len() >= old(self)@.capacity ==> {
                &&& r is Full
                &&& final(self)@.queue == old(self)@.queue
            },
    {
        let r = tokio_try_send(&self.sender, &mut self.receiver, id);
        if let SendAttempt::Sent = r {
            self.message_count = self.message_count + 1;
        }
        r
    }

    /// Pushes message `id` with the given backpressure strategy. A closed mailbox
    /// refuses with `Closed`; otherwise a full mailbox drops `id` (`DropNewest`),
    /// refuses with `Full` (`Error`) or drops its oldest id to make room
    /// (`DropOldest`). A `Block` push into a full, open mailbox waits for space,
    /// which the caller does (until `block_step` answers) before calling.
    pub fn push(&mut self, id: u64, strategy: BackpressureStrategy) -> (r: Result<(), MailboxError>)
        requires
            old(self).wf(),
            answers_at_once(old(self)@, strategy),
        ensures
            final(self).wf(),
            final(self)@ == (MailboxModel {
                queue: after_push(old(self)@.queue, old(self)@.capacity, old(self)@.closed, id, strategy),
                ..old(self)@
            }),
            answers(r, push_verdict(old(self)@.queue, old(self)@.capacity, old(self)@.closed, strategy), old(self)@.capacity),
    {
        if self.is_closed {
            return Err(MailboxError::Closed);
        }
        match strategy {
            BackpressureStrategy::DropNewest => {
                match self.send_counted(id) {
                    SendAttempt::Sent => Ok(()),
                    SendAttempt::Full => Ok(()),
                    SendAttempt::Disconnected => Err(MailboxError::Closed),
                }
            },
            BackpressureStrategy::Block | BackpressureStrategy::Error => {
                match self.send_counted(id) {
                    SendAttempt::Sent => Ok(()),
                    SendAttempt::Full => Err(MailboxError::Full { capacity: self.capacity }),
                    SendAttempt::Disconnected => Err(MailboxError::Closed),
                }
            },
            BackpressureStrategy::DropOldest => {
                match self.send_counted(id) {
                    SendAttempt::Sent => Ok(()),
                    SendAttempt::Full => {
                        if let Some(_) = tokio_try_recv(&mut self.receiver) {
                            self.message_count = self.message_count - 1;
                        }
                        match self.send_counted(id) {
                            SendAttempt::Sent => Ok(()),
                            SendAttempt::Full => Err(MailboxError::PushError(
                                String::from_str("Failed to push after dropping oldest message"),
                            )),
                            SendAttempt::Disconnected => Err(MailboxError::Closed),
                        }
                    },
                    SendAttempt::Disconnected => Err(MailboxError::Closed),
                }
            },
        }
    }

    /// Removes and returns the oldest id, or `None` when empty.
    pub fn pop(&mut self) -> (r: Option<u64>)
        requires
            old(self).wf(),
        ensures
            final(self).wf(),
            r == pop_result(old(self)@),
            final(self)@ == (MailboxModel {
                queue: if old(self)@.queue.len() > 0 { old(self)@.queue.drop_first() } else { old(self)@.queue },
                ..old(self)@
            }),
    {
        let r = tokio_try_recv(&mut self.receiver);
        if let Some(_) = r {
            self.message_count = self.message_count - 1;
        }
        r
    }

    /// Whether no id is queued.
    pub fn is_empty(&self) -> (b: bool)
        requires
            self.wf(),
        ensures
            b == (self@.queue.len() == 0),
    {
        self.message_count == 0
    }

    /// The number of queued ids.
    pub fn len(&self) -> (n: usize)
        requires
            self.wf(),
        ensures
            n == self@.queue.len(),
    {
        self.message_count
    }

    /// The most ids the mailbox holds.
    pub fn capacity(&self) -> (n: usize)
        ensures
            n == self@.capacity,
    {
        self.capacity
    }

    /// Path of the actor the mailbox belongs to.
    pub fn path(&self) -> (p: &String)
        ensures
            p@ == self@.path,
    {
        &self.path
    }

    /// Whether the mailbox was closed.
    pub fn is_closed(&self) -> (b: bool)
        ensures
            b == self@.closed,
    {
        self.is_closed
    }

    /// Closes the mailbox and drops every queued id; later pushes fail with `Closed`.
    pub fn close(&mut self)
        requires
            old(self).wf(),
        ensures
            final(self).wf(),
            final(self)@ == (MailboxModel { queue: Seq::empty(), closed: true, ..old(self)@ }),
    {
        self.is_closed = true;
        while self.message_count > 0
            invariant
                self.wf(),
                self.is_closed,
                self.capacity == old(self).capacity,
                self.path@ == old(self).path@,
            decreases self.message_count,
        {
            if let Some(_) = tokio_try_recv(&mut self.receiver) {
                self.message_count = self.message_count - 1;
            }
        }
        assert(tokio_queue(self.receiver) =~= Seq::<u64>::empty());
    }
}

} // verus!
