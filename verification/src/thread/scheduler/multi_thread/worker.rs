//! A worker of the multi-threaded scheduler: it takes mailboxes from the shared
//! scheduling queue and handles a batch of each one's messages.

use vstd::prelude::*;
use std::time::Duration;
use crate::thread::mailbox::{Mailbox, MailboxModel};
use crate::thread::scheduler::queue::SchedulingQueue;
use crate::thread::text::join3;
use crate::thread::time::{duration_from_millis, millis};

verus! {

/// Status of a worker.
#[derive(Debug, Clone, Copy, PartialEq, Eq, Structural)]
pub enum WorkerStatus {
    /// Waiting for work.
    Idle,
    /// Handling the messages of a mailbox.
    Processing,
    /// Shutting down.
    ShuttingDown,
    /// An actor failed while the worker handled its messages.
    Error,
}

/// The numeric code a worker status is stored as.
pub open spec fn worker_status_code(s: WorkerStatus) -> nat {
    match s {
        WorkerStatus::Idle => 0,
        WorkerStatus::Processing => 1,
        WorkerStatus::ShuttingDown => 2,
        WorkerStatus::Error => 3,
    }
}

impl WorkerStatus {
    /// The numeric code of the status (0 to 3, in declaration order).
    pub fn code(self) -> (c: usize)
        ensures
            c == worker_status_code(self),
    {
        match self {
            WorkerStatus::Idle => 0,
            WorkerStatus::Processing => 1,
            WorkerStatus::ShuttingDown => 2,
            WorkerStatus::Error => 3,
        }
    }

    /// The status with the given code; an unknown code reads as `Error`.
    pub fn from_code(c: usize) -> (s: Self)
        ensures
            c <= 3 ==> worker_status_code(s) == c,
            c > 3 ==> s == WorkerStatus::Error,
    {
        match c {
            0 => WorkerStatus::Idle,
            1 => WorkerStatus::Processing,
            2 => WorkerStatus::ShuttingDown,
            _ => WorkerStatus::Error,
        }
    }
}

/// Reading back the code of a worker status gives the status.
pub proof fn law_worker_status_code_round_trip(s: WorkerStatus)
    ensures
        worker_status_code(s) <= 3,
        forall|t: WorkerStatus| worker_status_code(t) == worker_status_code(s) ==> t == s,
{
}

/// How a worker behaves.
#[derive(Debug, Clone, Copy)]
pub struct WorkerConfig {
    /// The most messages handled from one mailbox in one batch.
    pub batch_size: usize,
    /// How long to sleep when idle before looking for work again.
    pub idle_sleep_duration: Duration,
    /// Whether to yield to the runtime after each message.
    pub yield_after_each_message: bool,
    /// Whether to log detailed processing metrics.
    pub enable_detailed_logging: bool,
}

impl Default for WorkerConfig {
    /// Batches of 10, a 10 ms idle sleep, no yielding, no detailed logging.
    fn default() -> (c: Self)
        ensures
            c.batch_size == 10,
            c.idle_sleep_duration == duration_from_millis(10),
            !c.yield_after_each_message,
            !c.enable_detailed_logging,
    {
        WorkerConfig {
            batch_size: 10,
            idle_sleep_duration: millis(10),
            yield_after_each_message: false,
            enable_detailed_logging: false,
        }
    }
}

/// The number of messages a batch of at most `batch_size` takes from `queue`.
pub open spec fn batch_len(queue: Seq<u64>, batch_size: nat) -> nat {
    if queue.len() < batch_size { queue.len() } else { batch_size }
}

/// The scheduling queue after a mailbox's batch: the mailbox goes back to the
/// end when it still has messages.
pub open spec fn requeued(queue: Seq<u64>, handle: u64, left: Seq<u64>) -> Seq<u64> {
    if left.len() > 0 { queue.push(handle) } else { queue }
}

/// The text a worker reports when an actor panicked while it handled its messages.
pub open spec fn panic_report_text(actor_path: Seq<char>, detail: Seq<char>) -> Seq<char> {
    "Panic in actor "@ + actor_path + ": "@ + detail
}

/// A worker of the multi-threaded scheduler. The owner runs its loop: it asks
/// `next_mailbox` for work, hands the mailbox to `process_mailbox`, then calls
/// `finish_mailbox`; when `next_mailbox` answers `None` without shutting down
/// it waits for a notification or the idle sleep.
pub struct Worker {
    id: usize,
    batch_size: usize,
    status: WorkerStatus,
    config: WorkerConfig,
}

impl Worker {
    /// The worker's identifier.
    pub closed spec fn spec_id(&self) -> usize {
        self.id
    }

    /// The most messages the worker handles from one mailbox in one batch.
    pub closed spec fn spec_batch_size(&self) -> usize {
        self.batch_size
    }

    /// The worker's status.
    pub closed spec fn spec_status(&self) -> WorkerStatus {
        self.status
    }

    /// The worker's configuration.
    pub closed spec fn spec_config(&self) -> WorkerConfig {
        self.config
    }

    /// An idle worker with identifier `id` and configuration `config`, or the
    /// default configuration; its batch size is the configuration's.
    pub fn new(id: usize, config: Option<WorkerConfig>) -> (w: Self)
        ensures
            w.spec_id() == id,
            w.spec_status() == WorkerStatus::Idle,
            config is Some ==> w.spec_config() == config.unwrap(),
            config is None ==> w.spec_batch_size() == 10,
            w.spec_batch_size() == w.spec_config().batch_size,
    {
        let config = match config {
            Some(c) => c,
            None => WorkerConfig::default(),
        };
        Worker { id, batch_size: config.batch_size, status: WorkerStatus::Idle, config }
    }

    /// One turn of the worker's loop. Once `shutting_down` is set the worker
    /// stops (status `ShuttingDown`, no mailbox); otherwise it takes the oldest
    /// ready mailbox (status `Processing`), or finds none (status `Idle`).
    pub fn next_mailbox(&mut self, queue: &mut SchedulingQueue, shutting_down: bool) -> (r: Option<u64>)
        ensures
            final(self).spec_id() == old(self).spec_id(),
            final(self).spec_batch_size() == old(self).spec_batch_size(),
            final(self).spec_config() == old(self).spec_config(),
            final(queue).spec_max_capacity() == old(queue).spec_max_capacity(),
            shutting_down ==> r is None && final(self).spec_status() == WorkerStatus::ShuttingDown
                && final(queue)@ == old(queue)@,
            !shutting_down && old(queue)@.len() > 0 ==> r == Some(old(queue)@[0])
                && final(self).spec_status() == WorkerStatus::Processing
                && final(queue)@ == old(queue)@.drop_first(),
            !shutting_down && old(queue)@.len() == 0 ==> r is None && final(self).spec_status() == WorkerStatus::Idle
                && final(queue)@ == old(queue)@,
    {
        if shutting_down {
            self.status = WorkerStatus::ShuttingDown;
            return None;
        }
        match queue.try_pop() {
            Some(handle) => {
                self.status = WorkerStatus::Processing;
                Some(handle)
            },
            None => {
                self.status = WorkerStatus::Idle;
                None
            },
        }
    }

    /// Handles a batch of the messages of the mailbox `handle`: unless
    /// `shutting_down` is set, it takes the oldest messages, at most the batch
    /// size, and answers their ids in order. A mailbox that still has messages
    /// goes back to the end of the scheduling queue.
    pub fn process_mailbox<M: Mailbox>(
        &self,
        handle: u64,
        mailbox: &mut M,
        queue: &mut SchedulingQueue,
        shutting_down: bool,
    ) -> (taken: Vec<u64>)
        requires
            old(mailbox).well_formed(),
        ensures
            final(mailbox).well_formed(),
            taken@ == old(mailbox).model().queue.take(
                if shutting_down { 0 } else { batch_len(old(mailbox).model().queue, self.spec_batch_size() as nat) } as int,
            ),
            final(mailbox).model().queue == old(mailbox).model().queue.skip(taken@.len() as int),
            final(mailbox).model().capacity == old(mailbox).model().capacity,
            final(mailbox).model().closed == old(mailbox).model().closed,
            final(mailbox).model().path == old(mailbox).model().path,
            final(queue)@ == requeued(old(queue)@, handle, final(mailbox).model().queue),
            final(queue).spec_max_capacity() == old(queue).spec_max_capacity(),
    {
        let taken = take_batch(mailbox, self.batch_size, shutting_down);
        if !mailbox.no_messages() {
            queue.push(handle);
        }
        taken
    }

    /// Ends the handling of a mailbox: the worker is idle again.
    pub fn finish_mailbox(&mut self)
        ensures
            final(self).spec_status() == WorkerStatus::Idle,
            final(self).spec_id() == old(self).spec_id(),
            final(self).spec_batch_size() == old(self).spec_batch_size(),
            final(self).spec_config() == old(self).spec_config(),
    {
        self.status = WorkerStatus::Idle;
    }

    /// Recovers from an actor that panicked while the worker handled the
    /// mailbox `handle`: the mailbox goes back to the end of the scheduling
    /// queue, the worker's status becomes `Error`, and the answer is the report
    /// for the system.
    pub fn recover_from_panic(&mut self, handle: u64, queue: &mut SchedulingQueue, actor_path: &str, detail: &str) -> (report: String)
        ensures
            report@ == panic_report_text(actor_path@, detail@),
            final(queue)@ == old(queue)@.push(handle),
            final(queue).spec_max_capacity() == old(queue).spec_max_capacity(),
            final(self).spec_status() == WorkerStatus::Error,
            final(self).spec_id() == old(self).spec_id(),
            final(self).spec_batch_size() == old(self).spec_batch_size(),
            final(self).spec_config() == old(self).spec_config(),
    {
        queue.push(handle);
        self.status = WorkerStatus::Error;
        join3("Panic in actor ", actor_path, ": ").concat(detail)
    }

    /// The worker's status.
    pub fn get_status(&self) -> (s: WorkerStatus)
        ensures
            s == self.spec_status(),
    {
        self.status
    }

    /// The worker's identifier.
    pub fn id(&self) -> (n: usize)
        ensures
            n == self.spec_id(),
    {
        self.id
    }

    /// The most messages the worker handles from one mailbox in one batch.
    pub fn batch_size(&self) -> (n: usize)
        ensures
            n == self.spec_batch_size(),
    {
        self.batch_size
    }
}

/// Takes the oldest messages of `mailbox`, at most `batch_size` of them, and
/// none once `shutting_down` is set (the flag is looked at before each message).
pub(crate) fn take_batch<M: Mailbox>(mailbox: &mut M, batch_size: usize, shutting_down: bool) -> (taken: Vec<u64>)
    requires
        old(mailbox).well_formed(),
    ensures
        final(mailbox).well_formed(),
        taken@ == old(mailbox).model().queue.take(
            if shutting_down { 0 } else { batch_len(old(mailbox).model().queue, batch_size as nat) } as int,
        ),
        final(mailbox).model().queue == old(mailbox).model().queue.skip(taken@.len() as int),
        final(mailbox).model().capacity == old(mailbox).model().capacity,
        final(mailbox).model().closed == old(mailbox).model().closed,
        final(mailbox).model().path == old(mailbox).model().path,
{
    let ghost start: MailboxModel = mailbox.model();
    let mut taken: Vec<u64> = Vec::new();
    if shutting_down {
        return taken;
    }
    let mut processed: usize = 0;
    while processed < batch_size
        invariant
            mailbox.well_formed(),
            processed <= batch_size,
            processed == taken@.len(),
            processed <= start.queue.len(),
            taken@ == start.queue.take(processed as int),
            mailbox.model().queue == start.queue.skip(processed as int),
            mailbox.model().capacity == start.capacity,
            mailbox.model().closed == start.closed,
            mailbox.model().path == start.path,
        ensures
            processed == batch_len(start.queue, batch_size as nat),
            taken@ == start.queue.take(processed as int),
            mailbox.well_formed(),
            mailbox.model().queue == start.queue.skip(processed as int),
            mailbox.model().capacity == start.capacity,
            mailbox.model().closed == start.closed,
            mailbox.model().path == start.path,
        decreases batch_size - processed,
    {
        match mailbox.pop_id() {
            Some(id) => {
                proof {
                    assert(start.queue.take(processed + 1) =~= start.queue.take(processed as int).push(id));
                    assert(start.queue.skip(processed + 1) =~= start.queue.skip(processed as int).drop_first());
                }
                taken.push(id);
                processed = processed + 1;
            },
            None => {
                break;
            },
        }
    }
    taken
}

} // verus!
