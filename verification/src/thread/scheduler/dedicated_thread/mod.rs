//! Scheduling actors onto dedicated threads, one thread per actor.

use vstd::prelude::*;
use std::time::Duration;
use crate::thread::error::SystemError;
use crate::thread::registry::{views, PathRegistry};
use crate::thread::time::{duration_from_millis, millis};

pub mod worker;

verus! {

/// Status of a scheduler.
#[derive(Debug, Clone, Copy, PartialEq, Eq, Structural)]
pub enum SchedulerStatus {
    /// Scheduler is initializing.
    Initializing,
    /// Scheduler is running normally.
    Running,
    /// Scheduler is shutting down.
    ShuttingDown,
    /// Scheduler has completed shutdown.
    Shutdown,
    /// Scheduler has encountered an error.
    Error,
}

/// The numeric code a scheduler status is stored as.
pub open spec fn scheduler_status_code(s: SchedulerStatus) -> nat {
    match s {
        SchedulerStatus::Initializing => 0,
        SchedulerStatus::Running => 1,
        SchedulerStatus::ShuttingDown => 2,
        SchedulerStatus::Shutdown => 3,
        SchedulerStatus::Error => 4,
    }
}

impl SchedulerStatus {
    /// The numeric code of the status (0 to 4, in declaration order).
    pub fn code(self) -> (c: usize)
        ensures
            c == scheduler_status_code(self),
    {
        match self {
            SchedulerStatus::Initializing => 0,
            SchedulerStatus::Running => 1,
            SchedulerStatus::ShuttingDown => 2,
            SchedulerStatus::Shutdown => 3,
            SchedulerStatus::Error => 4,
        }
    }

    /// The status with the given code; an unknown code reads as `Error`.
    pub fn from_code(c: usize) -> (s: Self)
        ensures
            c <= 4 ==> scheduler_status_code(s) == c,
            c > 4 ==> s == SchedulerStatus::Error,
    {
        match c {
            0 => SchedulerStatus::Initializing,
            1 => SchedulerStatus::Running,
            2 => SchedulerStatus::ShuttingDown,
            3 => SchedulerStatus::Shutdown,
            _ => SchedulerStatus::Error,
        }
    }
}

/// Reading back the code of a scheduler status gives the status.
pub proof fn law_scheduler_status_code_round_trip(s: SchedulerStatus)
    ensures
        scheduler_status_code(s) <= 4,
        forall|t: SchedulerStatus| scheduler_status_code(t) == scheduler_status_code(s) ==> t == s,
{
}

/// Configuration for the dedicated thread scheduler.
#[derive(Debug, Clone, Copy)]
pub struct DedicatedThreadConfig {
    /// Whether to use a priority queue for message processing.
    pub use_priority_queue: bool,
    /// Maximum number of messages to process in one batch.
    pub max_messages_per_batch: usize,
    /// Duration to sleep when idle before checking for work again.
    pub idle_sleep_duration: Duration,
    /// Whether to yield after processing each message.
    pub yield_after_each_message: bool,
    /// Whether to log detailed processing metrics.
    pub enable_detailed_logging: bool,
}

impl Default for DedicatedThreadConfig {
    /// No priority queue, batches of 10, 10 ms idle sleep, no yielding, no detailed logging.
    fn default() -> (c: Self)
        ensures
            !c.use_priority_queue,
            c.max_messages_per_batch == 10,
            c.idle_sleep_duration == duration_from_millis(10),
            !c.yield_after_each_message,
            !c.enable_detailed_logging,
    {
        DedicatedThreadConfig {
            use_priority_queue: false,
            max_messages_per_batch: 10,
            idle_sleep_duration: millis(10),
            yield_after_each_message: false,
            enable_detailed_logging: false,
        }
    }
}

/// Stack size of a dedicated worker thread: 3 MiB.
pub const DEDICATED_WORKER_STACK_SIZE: usize = 3145728;

/// How a dedicated worker thread is set up: derived from the scheduler's configuration.
#[derive(Debug, Clone, Copy)]
pub struct WorkerSettings {
    /// Messages processed per batch.
    pub batch_size: usize,
    /// Whether to yield after each message.
    pub yield_after_each_message: bool,
    /// Sleep when the mailbox is empty.
    pub idle_sleep_duration: Duration,
    /// Stack size of the worker thread.
    pub thread_stack_size: usize,
}

/// The worker settings the scheduler's configuration gives.
pub open spec fn settings_of(config: DedicatedThreadConfig) -> WorkerSettings {
    WorkerSettings {
        batch_size: config.max_messages_per_batch,
        yield_after_each_message: config.yield_after_each_message,
        idle_sleep_duration: config.idle_sleep_duration,
        thread_stack_size: DEDICATED_WORKER_STACK_SIZE,
    }
}

/// The dedicated thread scheduler's decisions: which actors have a worker
/// thread, with which settings, and whether it is shutting down. Starting and
/// stopping the threads is left to its owner, which follows these decisions.
pub struct DedicatedThreadScheduler {
    workers: PathRegistry<WorkerSettings>,
    config: DedicatedThreadConfig,
    is_shutting_down: bool,
    status: SchedulerStatus,
}

impl DedicatedThreadScheduler {
    /// The scheduled actors and their worker settings.
    pub closed spec fn workers(&self) -> Map<Seq<char>, WorkerSettings> {
        self.workers@
    }

    /// The scheduler's configuration.
    pub closed spec fn spec_config(&self) -> DedicatedThreadConfig {
        self.config
    }

    /// Whether the scheduler is shutting down.
    pub closed spec fn shutting_down(&self) -> bool {
        self.is_shutting_down
    }

    /// The scheduler's status.
    pub closed spec fn spec_status(&self) -> SchedulerStatus {
        self.status
    }

    /// The scheduler's consistency.
    pub closed spec fn wf(&self) -> bool {
        self.workers.wf()
    }

    /// A consistent scheduler has finitely many workers.
    pub proof fn lemma_finite(&self)
        requires
            self.wf(),
        ensures
            self.workers().dom().finite(),
    {
        self.workers.lemma_paths();
    }

    /// A running scheduler with no worker, using `config` or the default configuration.
    pub fn new(config: Option<DedicatedThreadConfig>) -> (s: Self)
        ensures
            s.wf(),
            s.workers() == Map::<Seq<char>, WorkerSettings>::empty(),
            !s.shutting_down(),
            s.spec_status() == SchedulerStatus::Running,
            config is Some ==> s.spec_config() == config.unwrap(),
    {
        let config = match config {
            Some(c) => c,
            None => DedicatedThreadConfig::default(),
        };
        let mut s = DedicatedThreadScheduler {
            workers: PathRegistry::new(),
            config,
            is_shutting_down: false,
            status: SchedulerStatus::Initializing,
        };
        s.status = SchedulerStatus::Running;
        s
    }

    /// Schedules the actor at `path` on a dedicated worker. A shutting-down
    /// scheduler refuses; an actor that already has a worker keeps it
    /// (`Ok(None)`); otherwise the actor is recorded with the settings for its
    /// new worker, which the owner starts (`Ok(Some(settings))`).
    pub fn schedule(&mut self, path: &str) -> (r: Result<Option<WorkerSettings>, SystemError>)
        requires
            old(self).wf(),
        ensures
            final(self).wf(),
            final(self).spec_config() == old(self).spec_config(),
            final(self).shutting_down() == old(self).shutting_down(),
            final(self).spec_status() == old(self).spec_status(),
            old(self).shutting_down() ==> (r matches Err(SystemError::ShuttingDown) && final(self).workers() == old(self).workers()),
            !old(self).shutting_down() && old(self).workers().contains_key(path@) ==> (r matches Ok(None) && final(self).workers() == old(self).workers()),
            !old(self).shutting_down() && !old(self).workers().contains_key(path@) ==> {
                &&& r == Ok::<Option<WorkerSettings>, SystemError>(Some(settings_of(old(self).spec_config())))
                &&& final(self).workers() == old(self).workers().insert(path@, settings_of(old(self).spec_config()))
            },
    {
        if self.is_shutting_down {
            return Err(SystemError::ShuttingDown);
        }
        if self.workers.contains(path) {
            return Ok(None);
        }
        let settings = WorkerSettings {
            batch_size: self.config.max_messages_per_batch,
            yield_after_each_message: self.config.yield_after_each_message,
            idle_sleep_duration: self.config.idle_sleep_duration,
            thread_stack_size: DEDICATED_WORKER_STACK_SIZE,
        };
        self.workers.insert(String::from_str(path), settings);
        Ok(Some(settings))
    }

    /// Removes the worker of the actor at `path`, whose thread the owner then
    /// stops; an unknown actor gives `ActorNotFound`.
    pub fn deschedule(&mut self, path: &str) -> (r: Result<(), SystemError>)
        requires
            old(self).wf(),
        ensures
            final(self).wf(),
            final(self).workers() == old(self).workers().remove(path@),
            final(self).spec_config() == old(self).spec_config(),
            final(self).shutting_down() == old(self).shutting_down(),
            final(self).spec_status() == old(self).spec_status(),
            old(self).workers().contains_key(path@) ==> r is Ok,
            !old(self).workers().contains_key(path@) ==> (r matches Err(SystemError::ActorNotFound(p)) && p@ == path@),
    {
        if self.workers.remove(path) {
            Ok(())
        } else {
            Err(SystemError::ActorNotFound(String::from_str(path)))
        }
    }

    /// Whether the actor at `path` has a worker.
    pub fn is_scheduled(&self, path: &str) -> (b: bool)
        ensures
            b == self.workers().contains_key(path@),
    {
        self.workers.contains(path)
    }

    /// Shuts the scheduler down: it refuses further actors, forgets every
    /// worker and returns their paths, whose threads the owner stops.
    pub fn shutdown(&mut self) -> (r: Vec<String>)
        requires
            old(self).wf(),
        ensures
            final(self).wf(),
            final(self).shutting_down(),
            final(self).spec_status() == SchedulerStatus::Shutdown,
            final(self).workers() == Map::<Seq<char>, WorkerSettings>::empty(),
            final(self).spec_config() == old(self).spec_config(),
            views(r@).to_set() == old(self).workers().dom(),
            views(r@).no_duplicates(),
    {
        self.status = SchedulerStatus::ShuttingDown;
        self.is_shutting_down = true;
        let paths = self.workers.path_list();
        proof {
            self.workers.lemma_paths();
        }
        self.workers = PathRegistry::new();
        self.status = SchedulerStatus::Shutdown;
        paths
    }

    /// The scheduler's status.
    pub fn status(&self) -> (s: SchedulerStatus)
        ensures
            s == self.spec_status(),
    {
        self.status
    }

    /// The number of dedicated workers.
    pub fn worker_count(&self) -> (n: usize)
        ensures
            n == self.workers().len(),
    {
        self.workers.len()
    }
}

} // verus!
