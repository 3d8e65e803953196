//! A worker of the shared thread pool.

use vstd::prelude::*;
use crate::thread::mailbox::{Mailbox, MailboxModel};
use crate::thread::registry::PathRegistry;
use crate::thread::scheduler::multi_thread::worker::{batch_len, requeued, take_batch};
use crate::thread::scheduler::queue::SchedulingQueue;

pub use crate::thread::scheduler::multi_thread::worker::{WorkerConfig, WorkerStatus};

verus! {

/// How many messages a pool worker takes from a mailbox in one run.
pub const DEFAULT_BATCH_SIZE: usize = 10;

/// Whether a mailbox goes back to the queue after a batch: when handling a
/// message failed, or when messages were handled and more are waiting.
pub open spec fn spec_should_requeue(had_error: bool, processed: nat, has_more: bool) -> bool {
    had_error || (processed > 0 && has_more)
}

/// The number of messages a pool worker's run takes from `queue`: the shutdown
/// flag is looked at after each message, so a shutting-down pool still takes one.
pub open spec fn pool_run_len(queue: Seq<u64>, shutting_down: bool) -> nat {
    if shutting_down { batch_len(queue, 1) } else { batch_len(queue, DEFAULT_BATCH_SIZE as nat) }
}

/// A worker of the shared thread pool: besides its status and configuration it
/// remembers which processor handles each actor's messages. The owner runs its
/// loop as for the multi-threaded scheduler's worker.
pub struct Worker {
    id: usize,
    batch_size: usize,
    status: WorkerStatus,
    config: WorkerConfig,
    processors: PathRegistry<u64>,
}

impl Worker {
    /// The worker's identifier.
    pub closed spec fn spec_id(&self) -> usize {
        self.id
    }

    /// The most messages the worker handles from one mailbox in one batch.
    pub closed spec fn spec_batch_size(&self) -> usize {
        self.batch_size
    }

    /// The worker's status.
    pub closed spec fn spec_status(&self) -> WorkerStatus {
        self.status
    }

    /// The worker's configuration.
    pub closed spec fn spec_config(&self) -> WorkerConfig {
        self.config
    }

    /// The processors the worker knows, by actor path.
    pub closed spec fn known_processors(&self) -> Map<Seq<char>, u64> {
        self.processors@
    }

    /// The worker's consistency.
    pub closed spec fn wf(&self) -> bool {
        self.processors.wf()
    }

    /// An idle worker with identifier `id` that knows no processor, using
    /// `config` or the default configuration; its batch size is the configuration's.
    pub fn new(id: usize, config: Option<WorkerConfig>) -> (w: Self)
        ensures
            w.wf(),
            w.spec_id() == id,
            w.spec_status() == WorkerStatus::Idle,
            w.known_processors() == Map::<Seq<char>, u64>::empty(),
            config is Some ==> w.spec_config() == config.unwrap(),
            config is None ==> w.spec_batch_size() == 10,
            w.spec_batch_size() == w.spec_config().batch_size,
    {
        let config = match config {
            Some(c) => c,
            None => WorkerConfig::default(),
        };
        Worker { id, batch_size: config.batch_size, status: WorkerStatus::Idle, config, processors: PathRegistry::new() }
    }

    /// One turn of the worker's loop: stop once `shutting_down` is set (status
    /// `ShuttingDown`), else take the oldest ready mailbox (status
    /// `Processing`) or find none (status `Idle`).
    pub fn next_mailbox(&mut self, queue: &mut SchedulingQueue, shutting_down: bool) -> (r: Option<u64>)
        requires
            old(self).wf(),
        ensures
            final(self).wf(),
            final(self).spec_id() == old(self).spec_id(),
            final(self).spec_batch_size() == old(self).spec_batch_size(),
            final(self).spec_config() == old(self).spec_config(),
            final(self).known_processors() == old(self).known_processors(),
            final(queue).spec_max_capacity() == old(queue).spec_max_capacity(),
            shutting_down ==> r is None && final(self).spec_status() == WorkerStatus::ShuttingDown
                && final(queue)@ == old(queue)@,
            !shutting_down && old(queue)@.len() > 0 ==> r == Some(old(queue)@[0])
                && final(self).spec_status() == WorkerStatus::Processing
                && final(queue)@ == old(queue)@.drop_first(),
            !shutting_down && old(queue)@.len() == 0 ==> r is None && final(self).spec_status() == WorkerStatus::Idle
                && final(queue)@ == old(queue)@,
    {
        if shutting_down {
            self.status = WorkerStatus::ShuttingDown;
            return None;
        }
        match queue.try_pop() {
            Some(handle) => {
                self.status = WorkerStatus::Processing;
                Some(handle)
            },
            None => {
                self.status = WorkerStatus::Idle;
                None
            },
        }
    }

    /// The processor the worker knows for the actor at `path`, if any.
    pub fn cached_processor(&self, path: &str) -> (r: Option<u64>)
        ensures
            match r {
                Some(p) => self.known_processors().contains_key(path@) && p == self.known_processors()[path@],
                None => !self.known_processors().contains_key(path@),
            },
    {
        match self.processors.get(path) {
            Some(p) => Some(*p),
            None => None,
        }
    }

    /// Remembers that `processor` handles the messages of the actor at `path`.
    pub fn remember_processor(&mut self, path: String, processor: u64)
        requires
            old(self).wf(),
        ensures
            final(self).wf(),
            final(self).known_processors() == old(self).known_processors().insert(path@, processor),
            final(self).spec_id() == old(self).spec_id(),
            final(self).spec_status() == old(self).spec_status(),
            final(self).spec_batch_size() == old(self).spec_batch_size(),
            final(self).spec_config() == old(self).spec_config(),
    {
        self.processors.insert(path, processor);
    }

    /// Takes the messages of one batch from `mailbox` for its processor: none
    /// when the mailbox has no processor, otherwise the oldest ones, at most
    /// `max_messages`, in order.
    pub fn process_mailbox<M: Mailbox>(&self, mailbox: &mut M, has_processor: bool, max_messages: usize) -> (taken: Vec<u64>)
        requires
            old(mailbox).well_formed(),
        ensures
            final(mailbox).well_formed(),
            taken@ == old(mailbox).model().queue.take(
                if has_processor { batch_len(old(mailbox).model().queue, max_messages as nat) } else { 0 } as int,
            ),
            final(mailbox).model().queue == old(mailbox).model().queue.skip(taken@.len() as int),
            final(mailbox).model().capacity == old(mailbox).model().capacity,
            final(mailbox).model().closed == old(mailbox).model().closed,
            final(mailbox).model().path == old(mailbox).model().path,
    {
        take_batch(mailbox, max_messages, !has_processor)
    }

    /// Ends the handling of a mailbox: the worker is idle again.
    pub fn finish_mailbox(&mut self)
        ensures
            final(self).spec_status() == WorkerStatus::Idle,
            final(self).spec_id() == old(self).spec_id(),
            final(self).spec_batch_size() == old(self).spec_batch_size(),
            final(self).spec_config() == old(self).spec_config(),
            final(self).known_processors() == old(self).known_processors(),
            final(self).wf() == old(self).wf(),
    {
        self.status = WorkerStatus::Idle;
    }

    /// The worker's status.
    pub fn get_status(&self) -> (s: WorkerStatus)
        ensures
            s == self.spec_status(),
    {
        self.status
    }
}

/// Whether a mailbox goes back to the queue after a batch in which `processed`
/// messages were handled, `had_error` telling whether one of them failed and
/// `has_more` whether messages are still waiting.
pub fn should_requeue(had_error: bool, processed: usize, has_more: bool) -> (b: bool)
    ensures
        b == spec_should_requeue(had_error, processed as nat, has_more),
{
    had_error || (processed > 0 && has_more)
}

/// A batch in which handling a message failed always puts the mailbox back on
/// the queue; without a failure it goes back exactly when messages were handled
/// and more are waiting.
pub proof fn law_failed_batch_is_requeued(processed: nat, has_more: bool)
    ensures
        spec_should_requeue(true, processed, has_more),
        !spec_should_requeue(false, 0, has_more),
        !spec_should_requeue(false, processed, false),
        processed > 0 ==> spec_should_requeue(false, processed, true),
{
}

/// One run of a pool worker on the mailbox `handle`: it takes the oldest
/// messages, at most `DEFAULT_BATCH_SIZE`, stopping after a message once
/// `shutting_down` is set, and answers their ids in order. A mailbox that still
/// has messages goes back to the end of the scheduling queue.
pub fn run_pool_batch<M: Mailbox>(queue: &mut SchedulingQueue, handle: u64, mailbox: &mut M, shutting_down: bool) -> (taken: Vec<u64>)
    requires
        old(mailbox).well_formed(),
    ensures
        final(mailbox).well_formed(),
        taken@ == old(mailbox).model().queue.take(pool_run_len(old(mailbox).model().queue, shutting_down) as int),
        final(mailbox).model().queue == old(mailbox).model().queue.skip(taken@.len() as int),
        final(mailbox).model().capacity == old(mailbox).model().capacity,
        final(mailbox).model().closed == old(mailbox).model().closed,
        final(mailbox).model().path == old(mailbox).model().path,
        final(queue)@ == requeued(old(queue)@, handle, final(mailbox).model().queue),
        final(queue).spec_max_capacity() == old(queue).spec_max_capacity(),
{
    let ghost start: MailboxModel = mailbox.model();
    let mut taken: Vec<u64> = Vec::new();
    let mut processed: usize = 0;
    while processed < DEFAULT_BATCH_SIZE
        invariant_except_break
            shutting_down ==> processed == 0,
        invariant
            mailbox.well_formed(),
            processed <= DEFAULT_BATCH_SIZE,
            processed == taken@.len(),
            processed <= start.queue.len(),
            taken@ == start.queue.take(processed as int),
            mailbox.model().queue == start.queue.skip(processed as int),
            mailbox.model().capacity == start.capacity,
            mailbox.model().closed == start.closed,
            mailbox.model().path == start.path,
        ensures
            processed == pool_run_len(start.queue, shutting_down),
            taken@ == start.queue.take(processed as int),
            mailbox.well_formed(),
            mailbox.model().queue == start.queue.skip(processed as int),
            mailbox.model().capacity == start.capacity,
            mailbox.model().closed == start.closed,
            mailbox.model().path == start.path,
        decreases DEFAULT_BATCH_SIZE - processed,
    {
        match mailbox.pop_id() {
            Some(id) => {
                proof {
                    assert(start.queue.take(processed + 1) =~= start.queue.take(processed as int).push(id));
                    assert(start.queue.skip(processed + 1) =~= start.queue.skip(processed as int).drop_first());
                }
                taken.push(id);
                processed = processed + 1;
            },
            None => {
                break;
            },
        }
        if shutting_down {
            break;
        }
    }
    if !mailbox.no_messages() {
        queue.push(handle);
    }
    taken
}

} // verus!
