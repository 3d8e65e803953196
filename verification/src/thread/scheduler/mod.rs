//! Schedulers: the queue of ready mailboxes, the shared thread pool, the
//! multi-threaded scheduler and the dedicated-thread schedulers.

use vstd::prelude::*;
use self::dedicated_thread::{DedicatedThreadConfig, DedicatedThreadScheduler, SchedulerStatus};
use self::shared::pool::{SharedThreadPool, SharedThreadPoolConfig};

pub mod dedicated;
pub mod dedicated_thread;
pub mod multi_thread;
pub mod queue;
pub mod shared;

verus! {

/// A shared thread pool together with a dedicated-thread scheduler.
pub struct SchedulerGroup {
    /// The shared thread pool.
    pub shared_scheduler: SharedThreadPool,
    /// The dedicated-thread scheduler.
    pub dedicated_scheduler: DedicatedThreadScheduler,
}

/// Creates scheduler groups.
pub struct ThreadSchedulerFactory;

impl ThreadSchedulerFactory {
    /// A factory.
    pub fn new() -> (f: Self) {
        ThreadSchedulerFactory
    }

    /// A running shared pool (with `config`, or the default configuration) and
    /// a running dedicated-thread scheduler (with `dedicated_config`, or its
    /// default), neither with any actor.
    pub fn create_scheduler_group(
        &self,
        config: Option<SharedThreadPoolConfig>,
        dedicated_config: Option<DedicatedThreadConfig>,
    ) -> (g: SchedulerGroup)
        ensures
            g.shared_scheduler.wf(),
            config is Some ==> g.shared_scheduler.spec_config() == config.unwrap(),
            g.shared_scheduler.spec_status() == SchedulerStatus::Running,
            g.shared_scheduler.scheduled() == Map::<Seq<char>, Option<crate::thread::config::ThreadActorConfig>>::empty(),
            g.dedicated_scheduler.wf(),
            dedicated_config is Some ==> g.dedicated_scheduler.spec_config() == dedicated_config.unwrap(),
            g.dedicated_scheduler.spec_status() == SchedulerStatus::Running,
            g.dedicated_scheduler.workers() == Map::<Seq<char>, dedicated_thread::WorkerSettings>::empty(),
    {
        SchedulerGroup {
            shared_scheduler: SharedThreadPool::new(config),
            dedicated_scheduler: DedicatedThreadScheduler::new(dedicated_config),
        }
    }
}

} // verus!
