//! The multi-threaded scheduler: a pool of workers sharing one queue of ready
//! mailboxes.

use vstd::prelude::*;
use crate::thread::error::SystemError;
use crate::thread::scheduler::queue::SchedulingQueue;
use self::worker::WorkerConfig;

pub use crate::thread::scheduler::dedicated_thread::SchedulerStatus;

pub mod worker;

verus! {

/// A snapshot of a scheduler's state.
#[derive(Debug, Clone, Copy)]
pub struct SchedulerMetrics {
    /// Number of workers in the pool.
    pub pool_size: usize,
    /// Number of mailboxes waiting in the scheduling queue.
    pub queue_length: usize,
    /// Whether the scheduler is shutting down.
    pub is_shutting_down: bool,
    /// The scheduler's status.
    pub status: SchedulerStatus,
}

/// The multi-threaded scheduler's state: the pool size, the queue of ready
/// mailboxes, the shutdown flag, the workers' configuration and the status.
/// Its owner spawns the workers that `start_workers` describes and runs them.
pub struct MultiThreadScheduler {
    pool_size: usize,
    scheduling_queue: SchedulingQueue,
    is_shutting_down: bool,
    worker_config: WorkerConfig,
    status: SchedulerStatus,
}

impl MultiThreadScheduler {
    /// The number of workers.
    pub closed spec fn spec_pool_size(&self) -> usize {
        self.pool_size
    }

    /// The handles of the mailboxes waiting to be processed, oldest first.
    pub closed spec fn queued(&self) -> Seq<u64> {
        self.scheduling_queue@
    }

    /// Whether the scheduler is shutting down.
    pub closed spec fn shutting_down(&self) -> bool {
        self.is_shutting_down
    }

    /// The workers' configuration.
    pub closed spec fn spec_worker_config(&self) -> WorkerConfig {
        self.worker_config
    }

    /// The scheduler's status.
    pub closed spec fn spec_status(&self) -> SchedulerStatus {
        self.status
    }

    /// A running scheduler of `pool_size` workers with an empty queue (which
    /// records `max_queue_capacity` for monitoring), using `worker_config` or
    /// the default worker configuration.
    pub fn new(pool_size: usize, max_queue_capacity: usize, worker_config: Option<WorkerConfig>) -> (s: Self)
        ensures
            s.spec_pool_size() == pool_size,
            s.queued() == Seq::<u64>::empty(),
            !s.shutting_down(),
            s.spec_status() == SchedulerStatus::Running,
            worker_config is Some ==> s.spec_worker_config() == worker_config.unwrap(),
            worker_config is None ==> s.spec_worker_config().batch_size == 10,
    {
        let worker_config = match worker_config {
            Some(c) => c,
            None => WorkerConfig::default(),
        };
        let mut s = MultiThreadScheduler {
            pool_size,
            scheduling_queue: SchedulingQueue::new(max_queue_capacity),
            is_shutting_down: false,
            worker_config,
            status: SchedulerStatus::Initializing,
        };
        s.status = SchedulerStatus::Running;
        s
    }

    /// The workers to spawn: one per pool slot, with identifiers `0` to
    /// `pool_size - 1`, each with the scheduler's worker configuration.
    pub fn start_workers(&self) -> (ws: Vec<worker::Worker>)
        ensures
            ws@.len() == self.spec_pool_size(),
            forall|i: int| #![trigger ws@[i]] 0 <= i < ws@.len() ==> {
                &&& ws@[i].spec_id() == i
                &&& ws@[i].spec_config() == self.spec_worker_config()
                &&& ws@[i].spec_batch_size() == self.spec_worker_config().batch_size
                &&& ws@[i].spec_status() == worker::WorkerStatus::Idle
            },
    {
        let mut ws: Vec<worker::Worker> = Vec::new();
        let mut id: usize = 0;
        while id < self.pool_size
            invariant
                id <= self.pool_size,
                ws@.len() == id,
                forall|i: int| #![trigger ws@[i]] 0 <= i < ws@.len() ==> {
                    &&& ws@[i].spec_id() == i
                    &&& ws@[i].spec_config() == self.spec_worker_config()
                    &&& ws@[i].spec_batch_size() == self.spec_worker_config().batch_size
                    &&& ws@[i].spec_status() == worker::WorkerStatus::Idle
                },
            decreases self.pool_size - id,
        {
            let w = worker::Worker::new(id, Some(self.worker_config));
            assert(w.spec_config() == self.spec_worker_config());
            assert(w.spec_id() == id);
            let ghost before = ws@;
            ws.push(w);
            proof {
                assert forall|i: int| #![trigger ws@[i]] 0 <= i < ws@.len() implies {
                    &&& ws@[i].spec_id() == i
                    &&& ws@[i].spec_config() == self.spec_worker_config()
                    &&& ws@[i].spec_batch_size() == self.spec_worker_config().batch_size
                    &&& ws@[i].spec_status() == worker::WorkerStatus::Idle
                } by {
                    if i < id {
                        assert(ws@[i] == before[i]);
                    } else {
                        assert(ws@[i] == w);
                    }
                }
            }
            id = id + 1;
        }
        ws
    }

    /// Queues the mailbox `mailbox` for processing, unless the scheduler is
    /// shutting down, in which case nothing changes.
    pub fn schedule(&mut self, mailbox: u64)
        ensures
            final(self).queued() == (if old(self).shutting_down() { old(self).queued() } else { old(self).queued().push(mailbox) }),
            final(self).shutting_down() == old(self).shutting_down(),
            final(self).spec_status() == old(self).spec_status(),
            final(self).spec_pool_size() == old(self).spec_pool_size(),
            final(self).spec_worker_config() == old(self).spec_worker_config(),
    {
        if !self.is_shutting_down {
            self.scheduling_queue.push(mailbox);
        }
    }

    /// Takes the oldest queued mailbox, if any; the workers' loop calls this.
    pub fn next_ready(&mut self) -> (r: Option<u64>)
        ensures
            r == (if old(self).queued().len() > 0 { Some(old(self).queued()[0]) } else { None::<u64> }),
            final(self).queued() == (if old(self).queued().len() > 0 { old(self).queued().drop_first() } else { old(self).queued() }),
            final(self).shutting_down() == old(self).shutting_down(),
            final(self).spec_status() == old(self).spec_status(),
            final(self).spec_pool_size() == old(self).spec_pool_size(),
            final(self).spec_worker_config() == old(self).spec_worker_config(),
    {
        self.scheduling_queue.try_pop()
    }

    /// Shuts the scheduler down: it goes through `ShuttingDown`, sets the flag
    /// that stops the workers (the owner then wakes each of them) and ends in
    /// `Shutdown`. The shutdown always succeeds.
    pub fn shutdown(&mut self, timeout_ms: u64) -> (r: Result<(), SystemError>)
        ensures
            r is Ok,
            final(self).shutting_down(),
            final(self).spec_status() == SchedulerStatus::Shutdown,
            final(self).queued() == old(self).queued(),
            final(self).spec_pool_size() == old(self).spec_pool_size(),
            final(self).spec_worker_config() == old(self).spec_worker_config(),
    {
        self.status = SchedulerStatus::ShuttingDown;
        self.is_shutting_down = true;
        self.status = SchedulerStatus::Shutdown;
        Ok(())
    }

    /// The number of workers.
    pub fn pool_size(&self) -> (n: usize)
        ensures
            n == self.spec_pool_size(),
    {
        self.pool_size
    }

    /// The scheduler's status.
    pub fn status(&self) -> (s: SchedulerStatus)
        ensures
            s == self.spec_status(),
    {
        self.status
    }

    /// A snapshot of the scheduler's state.
    pub fn metrics(&self) -> (m: SchedulerMetrics)
        ensures
            m.pool_size == self.spec_pool_size(),
            m.queue_length == self.queued().len(),
            m.is_shutting_down == self.shutting_down(),
            m.status == self.spec_status(),
    {
        SchedulerMetrics {
            pool_size: self.pool_size,
            queue_length: self.scheduling_queue.len(),
            is_shutting_down: self.is_shutting_down,
            status: self.status(),
        }
    }
}

} // verus!
