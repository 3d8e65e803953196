//! The shared thread pool's state and decisions.

use vstd::prelude::*;
use std::time::Duration;
use crate::thread::config::{available_cpus, ThreadActorConfig};
use crate::thread::error::SystemError;
use crate::thread::mailbox::Mailbox;
use crate::thread::scheduler::multi_thread::worker::requeued;
use crate::thread::scheduler::queue::SchedulingQueue;
use crate::thread::time::{duration_from_millis, millis};
use super::worker::{pool_run_len, Worker, WorkerConfig, WorkerStatus};
use super::worker_manager::WorkerManager;

pub use crate::thread::scheduler::dedicated_thread::SchedulerStatus;

verus! {

/// Configuration of the shared thread pool.
#[derive(Debug, Clone, Copy)]
pub struct SharedThreadPoolConfig {
    /// Number of worker threads.
    pub pool_size: usize,
    /// Capacity of the scheduling queue, recorded for monitoring.
    pub max_queue_capacity: usize,
    /// The most messages handled from one mailbox in one batch.
    pub max_messages_per_batch: usize,
    /// How long a worker sleeps when idle before looking for work again.
    pub idle_sleep_duration: Duration,
    /// Whether a worker yields to the runtime after each message.
    pub yield_after_each_message: bool,
    /// Whether to log detailed processing metrics.
    pub enable_detailed_logging: bool,
}

impl Default for SharedThreadPoolConfig {
    /// As many workers as CPUs, a queue capacity of 10000, batches of 10, a
    /// 10 ms idle sleep, no yielding and no detailed logging.
    fn default() -> (c: Self)
        ensures
            c.pool_size >= 1,
            c.max_queue_capacity == 10000,
            c.max_messages_per_batch == 10,
            c.idle_sleep_duration == duration_from_millis(10),
            !c.yield_after_each_message,
            !c.enable_detailed_logging,
    {
        SharedThreadPoolConfig {
            pool_size: available_cpus(),
            max_queue_capacity: 10000,
            max_messages_per_batch: 10,
            idle_sleep_duration: millis(10),
            yield_after_each_message: false,
            enable_detailed_logging: false,
        }
    }
}

/// A snapshot of the shared pool's state.
#[derive(Debug, Clone, Copy)]
pub struct SchedulerMetrics {
    /// Number of workers in the pool.
    pub pool_size: usize,
    /// Number of mailboxes waiting in the scheduling queue.
    pub queue_length: usize,
    /// Whether the pool is shutting down.
    pub is_shutting_down: bool,
    /// The pool's status.
    pub status: SchedulerStatus,
    /// Number of actors scheduled on the pool.
    pub active_processors: usize,
}

/// The worker configuration the pool's configuration gives.
pub open spec fn worker_config_of(c: SharedThreadPoolConfig) -> WorkerConfig {
    WorkerConfig {
        batch_size: c.max_messages_per_batch,
        idle_sleep_duration: c.idle_sleep_duration,
        yield_after_each_message: c.yield_after_each_message,
        enable_detailed_logging: c.enable_detailed_logging,
    }
}

/// The shared thread pool's state: its size, configuration, shutdown flag and
/// status, and the actors scheduled on it with their ready mailboxes. Its owner
/// spawns the workers that `start_workers` describes and runs them.
pub struct SharedThreadPool {
    pool_size: usize,
    is_shutting_down: bool,
    config: SharedThreadPoolConfig,
    worker_manager: WorkerManager,
    status: SchedulerStatus,
}

impl SharedThreadPool {
    /// The number of workers.
    pub closed spec fn spec_pool_size(&self) -> usize {
        self.pool_size
    }

    /// The pool's configuration.
    pub closed spec fn spec_config(&self) -> SharedThreadPoolConfig {
        self.config
    }

    /// Whether the pool is shutting down.
    pub closed spec fn shutting_down(&self) -> bool {
        self.is_shutting_down
    }

    /// The pool's status.
    pub closed spec fn spec_status(&self) -> SchedulerStatus {
        self.status
    }

    /// The actors scheduled on the pool, with their configurations.
    pub closed spec fn scheduled(&self) -> Map<Seq<char>, Option<ThreadActorConfig>> {
        self.worker_manager.scheduled()
    }

    /// The handles of the ready mailboxes, oldest first.
    pub closed spec fn queued(&self) -> Seq<u64> {
        self.worker_manager.queued()
    }

    /// The pool's consistency.
    pub closed spec fn wf(&self) -> bool {
        &&& self.worker_manager.wf()
        &&& self.pool_size == self.config.pool_size
    }

    /// A consistent pool schedules finitely many actors.
    pub proof fn lemma_finite(&self)
        requires
            self.wf(),
        ensures
            self.scheduled().dom().finite(),
    {
        self.worker_manager.lemma_finite();
    }

    /// A running pool with no scheduled actor, using `config` or the default
    /// configuration.
    pub fn new(config: Option<SharedThreadPoolConfig>) -> (p: Self)
        ensures
            p.wf(),
            config is Some ==> p.spec_config() == config.unwrap(),
            config is None ==> p.spec_config().max_messages_per_batch == 10 && p.spec_config().max_queue_capacity == 10000,
            p.spec_pool_size() == p.spec_config().pool_size,
            !p.shutting_down(),
            p.spec_status() == SchedulerStatus::Running,
            p.scheduled() == Map::<Seq<char>, Option<ThreadActorConfig>>::empty(),
            p.queued() == Seq::<u64>::empty(),
    {
        let config = match config {
            Some(c) => c,
            None => SharedThreadPoolConfig::default(),
        };
        let queue = SchedulingQueue::new(config.max_queue_capacity);
        let mut p = SharedThreadPool {
            pool_size: config.pool_size,
            is_shutting_down: false,
            config,
            worker_manager: WorkerManager::new(queue, config.max_messages_per_batch),
            status: SchedulerStatus::Initializing,
        };
        p.status = SchedulerStatus::Running;
        p
    }

    /// The workers to spawn: identifiers `0` to `pool_size - 1`, each with the
    /// worker configuration the pool's configuration gives.
    pub fn start_workers(&self) -> (ws: Vec<Worker>)
        ensures
            ws@.len() == self.spec_pool_size(),
            forall|i: int| #![trigger ws@[i]] 0 <= i < ws@.len() ==> {
                &&& ws@[i].wf()
                &&& ws@[i].spec_id() == i
                &&& ws@[i].spec_config() == worker_config_of(self.spec_config())
                &&& ws@[i].spec_batch_size() == self.spec_config().max_messages_per_batch
                &&& ws@[i].spec_status() == WorkerStatus::Idle
            },
    {
        let worker_config = WorkerConfig {
            batch_size: self.config.max_messages_per_batch,
            idle_sleep_duration: self.config.idle_sleep_duration,
            yield_after_each_message: self.config.yield_after_each_message,
            enable_detailed_logging: self.config.enable_detailed_logging,
        };
        let mut ws: Vec<Worker> = Vec::new();
        let mut id: usize = 0;
        while id < self.pool_size
            invariant
                id <= self.pool_size,
                ws@.len() == id,
                worker_config == worker_config_of(self.spec_config()),
                forall|i: int| #![trigger ws@[i]] 0 <= i < ws@.len() ==> {
                    &&& ws@[i].wf()
                    &&& ws@[i].spec_id() == i
                    &&& ws@[i].spec_config() == worker_config_of(self.spec_config())
                    &&& ws@[i].spec_batch_size() == self.spec_config().max_messages_per_batch
                    &&& ws@[i].spec_status() == WorkerStatus::Idle
                },
            decreases self.pool_size - id,
        {
            let w = Worker::new(id, Some(worker_config));
            let ghost before = ws@;
            ws.push(w);
            proof {
                assert forall|i: int| #![trigger ws@[i]] 0 <= i < ws@.len() implies {
                    &&& ws@[i].wf()
                    &&& ws@[i].spec_id() == i
                    &&& ws@[i].spec_config() == worker_config_of(self.spec_config())
                    &&& ws@[i].spec_batch_size() == self.spec_config().max_messages_per_batch
                    &&& ws@[i].spec_status() == WorkerStatus::Idle
                } by {
                    if i < id {
                        assert(ws@[i] == before[i]);
                    } else {
                        assert(ws@[i] == w);
                    }
                }
            }
            id = id + 1;
        }
        ws
    }

    /// Schedules the actor at `path` with its mailbox `mailbox`: a
    /// shutting-down pool refuses with `ShuttingDown`; otherwise the actor is
    /// recorded with `config` and its mailbox joins the queue of ready mailboxes.
    pub fn schedule(&mut self, path: &str, mailbox: u64, config: Option<ThreadActorConfig>) -> (r: Result<(), SystemError>)
        requires
            old(self).wf(),
        ensures
            final(self).wf(),
            final(self).spec_pool_size() == old(self).spec_pool_size(),
            final(self).spec_config() == old(self).spec_config(),
            final(self).shutting_down() == old(self).shutting_down(),
            final(self).spec_status() == old(self).spec_status(),
            old(self).shutting_down() ==> {
                &&& r matches Err(SystemError::ShuttingDown)
                &&& final(self).scheduled() == old(self).scheduled()
                &&& final(self).queued() == old(self).queued()
            },
            !old(self).shutting_down() ==> {
                &&& r is Ok
                &&& final(self).scheduled() == old(self).scheduled().insert(path@, config)
                &&& final(self).queued() == old(self).queued().push(mailbox)
            },
    {
        if self.is_shutting_down {
            return Err(SystemError::ShuttingDown);
        }
        self.worker_manager.schedule_mailbox(String::from_str(path), mailbox, config)
    }

    /// Removes the actor at `path` from the pool; an actor that is not
    /// scheduled gives `ActorNotFound`.
    pub fn deschedule(&mut self, path: &str) -> (r: Result<(), SystemError>)
        requires
            old(self).wf(),
        ensures
            final(self).wf(),
            final(self).scheduled() == old(self).scheduled().remove(path@),
            final(self).queued() == old(self).queued(),
            final(self).spec_pool_size() == old(self).spec_pool_size(),
            final(self).spec_config() == old(self).spec_config(),
            final(self).shutting_down() == old(self).shutting_down(),
            final(self).spec_status() == old(self).spec_status(),
            old(self).scheduled().contains_key(path@) ==> r is Ok,
            !old(self).scheduled().contains_key(path@) ==> (r matches Err(SystemError::ActorNotFound(p)) && p@ == path@),
    {
        self.worker_manager.stop_processor(path)
    }

    /// Whether the actor at `path` is scheduled on the pool.
    pub fn is_scheduled(&self, path: &str) -> (b: bool)
        ensures
            b == self.scheduled().contains_key(path@),
    {
        self.worker_manager.is_scheduled(path)
    }

    /// Takes the oldest ready mailbox, if any; the workers' loop calls this.
    pub fn next_ready(&mut self) -> (r: Option<u64>)
        requires
            old(self).wf(),
        ensures
            final(self).wf(),
            r == (if old(self).queued().len() > 0 { Some(old(self).queued()[0]) } else { None::<u64> }),
            final(self).queued() == (if old(self).queued().len() > 0 { old(self).queued().drop_first() } else { old(self).queued() }),
            final(self).scheduled() == old(self).scheduled(),
            final(self).spec_pool_size() == old(self).spec_pool_size(),
            final(self).spec_config() == old(self).spec_config(),
            final(self).shutting_down() == old(self).shutting_down(),
            final(self).spec_status() == old(self).spec_status(),
    {
        self.worker_manager.next_ready()
    }

    /// One run of a pool worker on the ready mailbox `handle`, taken with
    /// `next_ready`: the ids taken, oldest first (at most `DEFAULT_BATCH_SIZE`,
    /// and one once the pool is shutting down); the mailbox goes back to the end
    /// of the queue when messages are left in it.
    pub fn run_batch<M: Mailbox>(&mut self, handle: u64, mailbox: &mut M) -> (taken: Vec<u64>)
        requires
            old(self).wf(),
            old(mailbox).well_formed(),
        ensures
            final(self).wf(),
            final(mailbox).well_formed(),
            taken@ == old(mailbox).model().queue.take(pool_run_len(old(mailbox).model().queue, old(self).shutting_down()) as int),
            final(mailbox).model().queue == old(mailbox).model().queue.skip(taken@.len() as int),
            final(mailbox).model().capacity == old(mailbox).model().capacity,
            final(mailbox).model().closed == old(mailbox).model().closed,
            final(mailbox).model().path == old(mailbox).model().path,
            final(self).queued() == requeued(old(self).queued(), handle, final(mailbox).model().queue),
            final(self).scheduled() == old(self).scheduled(),
            final(self).spec_pool_size() == old(self).spec_pool_size(),
            final(self).spec_config() == old(self).spec_config(),
            final(self).shutting_down() == old(self).shutting_down(),
            final(self).spec_status() == old(self).spec_status(),
    {
        let stopping = self.is_shutting_down;
        self.worker_manager.run_batch(handle, mailbox, stopping)
    }

    /// Shuts the pool down: it goes through `ShuttingDown`, sets the flag that
    /// stops the workers (the owner then wakes each of them) and ends in
    /// `Shutdown`. The shutdown always succeeds.
    pub fn shutdown(&mut self, timeout_ms: u64) -> (r: Result<(), SystemError>)
        requires
            old(self).wf(),
        ensures
            final(self).wf(),
            r is Ok,
            final(self).shutting_down(),
            final(self).spec_status() == SchedulerStatus::Shutdown,
            final(self).scheduled() == old(self).scheduled(),
            final(self).queued() == old(self).queued(),
            final(self).spec_pool_size() == old(self).spec_pool_size(),
            final(self).spec_config() == old(self).spec_config(),
    {
        self.status = SchedulerStatus::ShuttingDown;
        self.is_shutting_down = true;
        self.status = SchedulerStatus::Shutdown;
        Ok(())
    }

    /// The number of workers.
    pub fn pool_size(&self) -> (n: usize)
        ensures
            n == self.spec_pool_size(),
    {
        self.pool_size
    }

    /// The pool's status.
    pub fn status(&self) -> (s: SchedulerStatus)
        ensures
            s == self.spec_status(),
    {
        self.status
    }

    /// A snapshot of the pool's state.
    pub fn metrics(&self) -> (m: SchedulerMetrics)
        ensures
            m.pool_size == self.spec_pool_size(),
            m.queue_length == self.queued().len(),
            m.is_shutting_down == self.shutting_down(),
            m.status == self.spec_status(),
            m.active_processors == self.scheduled().len(),
    {
        SchedulerMetrics {
            pool_size: self.pool_size,
            queue_length: self.worker_manager.queue_len(),
            is_shutting_down: self.is_shutting_down,
            status: self.status,
            active_processors: self.worker_manager.processor_count(),
        }
    }
}

/// Scheduling an actor on a running pool and then descheduling it leaves the
/// pool's set of scheduled actors as it was, when the actor was not scheduled before.
pub proof fn law_schedule_then_deschedule(
    before: Map<Seq<char>, Option<ThreadActorConfig>>,
    path: Seq<char>,
    config: Option<ThreadActorConfig>,
)
    requires
        !before.contains_key(path),
    ensures
        before.insert(path, config).remove(path) == before,
{
    assert(before.insert(path, config).remove(path) =~= before);
}

} // verus!
