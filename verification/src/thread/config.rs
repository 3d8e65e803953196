//! Configuration of the thread-based actor system and of single actors.

use vstd::prelude::*;
use std::time::Duration;
use crate::thread::time::{duration_from_secs, secs};

verus! {

/// Mailbox capacity used for actors on a dedicated thread when none is configured.
pub const DEFAULT_DEDICATED_THREAD_MAILBOX_CAPACITY: usize = 102400;

/// Determines how an actor's message processing is scheduled onto threads.
#[derive(Clone, Copy, Debug, PartialEq, Eq, Structural)]
pub enum SchedulingMode {
    /// Actor runs in the shared thread pool.
    SharedPool {
        /// Max messages to process in one scheduling run before yielding.
        max_messages_per_run: usize,
    },
    /// Actor runs exclusively on its own dedicated system thread.
    DedicatedThread,
}

/// Defines the behavior when `push` is called on a full mailbox.
#[derive(Clone, Copy, Debug, PartialEq, Eq, Structural)]
pub enum BackpressureStrategy {
    /// The push waits until space becomes available.
    Block,
    /// The push immediately fails with `MailboxError::Full`.
    Error,
    /// The oldest message in the mailbox is dropped to make space.
    DropOldest,
    /// The new message is dropped.
    DropNewest,
}

/// Defines how a supervisor reacts when a direct child actor fails.
#[derive(Clone, Copy, Debug)]
pub enum SupervisorStrategy {
    /// Restart the child actor immediately.
    Restart { max_retries: usize, within: Duration },
    /// Stop the child actor permanently.
    Stop,
    /// Stop the child actor and escalate the failure to the supervisor itself.
    Escalate,
}

/// Configuration for the `ThreadActorSystem`.
#[derive(Clone, Copy, Debug)]
pub struct ThreadActorSystemConfig {
    /// The number of worker threads in the shared thread pool.
    pub shared_pool_size: usize,
    /// The capacity of the shared scheduling queue.
    pub shared_queue_capacity: usize,
    /// The maximum number of dedicated threads allowed in the system.
    pub max_dedicated_threads: usize,
    /// The default scheduling mode assigned to new actors.
    pub default_scheduling_mode: SchedulingMode,
    /// The default capacity for actor mailboxes.
    pub default_mailbox_capacity: usize,
    /// The default timeout for `ask` operations.
    pub default_ask_timeout: Duration,
    /// The default supervision strategy applied to actors.
    pub default_supervisor_strategy: SupervisorStrategy,
    /// The default backpressure strategy used by mailboxes.
    pub default_backpressure_strategy: BackpressureStrategy,
    /// The timeout for system shutdown.
    pub shutdown_timeout: Duration,
}

/// Configuration for individual actors, overriding system defaults where set.
#[derive(Clone, Copy, Debug)]
pub struct ThreadActorConfig {
    /// The scheduling mode for this actor.
    pub scheduling_mode: Option<SchedulingMode>,
    /// The capacity of this actor's mailbox.
    pub mailbox_capacity: Option<usize>,
    /// The supervision strategy for this actor.
    pub supervisor_strategy: Option<SupervisorStrategy>,
    /// The timeout for ask operations originating from this actor.
    pub ask_timeout: Option<Duration>,
    /// The backpressure strategy for this actor's mailbox.
    pub backpressure_strategy: Option<BackpressureStrategy>,
}

impl Default for ThreadActorConfig {
    fn default() -> (r: Self)
        ensures
            r.scheduling_mode is None,
            r.mailbox_capacity is None,
            r.supervisor_strategy is None,
            r.ask_timeout is None,
            r.backpressure_strategy is None,
    {
        ThreadActorConfig {
            scheduling_mode: None,
            mailbox_capacity: None,
            supervisor_strategy: None,
            ask_timeout: None,
            backpressure_strategy: None,
        }
    }
}

/// Calls `num_cpus::get`: the number of logical CPUs available to this process.
/// The count depends on the machine; the crate documents that it is at least 1.
#[verifier::external_body]
pub(crate) fn available_cpus() -> (n: usize)
    ensures
        n >= 1,
{
    num_cpus::get()
}

impl Default for ThreadActorSystemConfig {
    /// The system defaults: a shared pool as large as the CPU count, a scheduling
    /// queue of 10000, at most 32 dedicated threads, shared-pool scheduling with
    /// runs of 10 messages, mailboxes of 1024, a 5 s ask timeout, restart up to
    /// 3 times within 10 s, blocking backpressure and a 10 s shutdown timeout.
    fn default() -> (r: Self)
        ensures
            r.shared_pool_size >= 1,
            r.shared_queue_capacity == 10000,
            r.max_dedicated_threads == 32,
            r.default_scheduling_mode == (SchedulingMode::SharedPool { max_messages_per_run: 10 }),
            r.default_mailbox_capacity == 1024,
            r.default_ask_timeout == duration_from_secs(5),
            r.default_supervisor_strategy == (SupervisorStrategy::Restart {
                max_retries: 3,
                within: duration_from_secs(10),
            }),
            r.default_backpressure_strategy == BackpressureStrategy::Block,
            r.shutdown_timeout == duration_from_secs(10),
    {
        ThreadActorSystemConfig {
            shared_pool_size: available_cpus(),
            shared_queue_capacity: 10000,
            max_dedicated_threads: 32,
            default_scheduling_mode: SchedulingMode::SharedPool { max_messages_per_run: 10 },
            default_mailbox_capacity: 1024,
            default_ask_timeout: secs(5),
            default_supervisor_strategy: SupervisorStrategy::Restart { max_retries: 3, within: secs(10) },
            default_backpressure_strategy: BackpressureStrategy::Block,
            shutdown_timeout: secs(10),
        }
    }
}

/// An actor setting merged with the system default: the actor's own value where set.
pub open spec fn or_default<T>(own: Option<T>, default: T) -> Option<T> {
    match own {
        Some(v) => Some(v),
        None => Some(default),
    }
}

impl ThreadActorSystemConfig {
    /// The actor configuration that results from filling every unset field of
    /// `actor` with the corresponding system default.
    pub open spec fn merged(self, actor: ThreadActorConfig) -> ThreadActorConfig {
        ThreadActorConfig {
            scheduling_mode: or_default(actor.scheduling_mode, self.default_scheduling_mode),
            mailbox_capacity: or_default(actor.mailbox_capacity, self.default_mailbox_capacity),
            supervisor_strategy: or_default(actor.supervisor_strategy, self.default_supervisor_strategy),
            ask_timeout: or_default(actor.ask_timeout, self.default_ask_timeout),
            backpressure_strategy: or_default(actor.backpressure_strategy, self.default_backpressure_strategy),
        }
    }

    /// Merge system configuration with actor-specific configuration: every field
    /// the actor leaves unset takes the system default.
    pub fn merge_with_actor_config(&self, actor_config: &ThreadActorConfig) -> (r: ThreadActorConfig)
        ensures
            r == self.merged(*actor_config),
    {
        ThreadActorConfig {
            scheduling_mode: match actor_config.scheduling_mode {
                Some(m) => Some(m),
                None => Some(self.default_scheduling_mode),
            },
            mailbox_capacity: match actor_config.mailbox_capacity {
                Some(c) => Some(c),
                None => Some(self.default_mailbox_capacity),
            },
            supervisor_strategy: match actor_config.supervisor_strategy {
                Some(s) => Some(s),
                None => Some(self.default_supervisor_strategy),
            },
            ask_timeout: match actor_config.ask_timeout {
                Some(t) => Some(t),
                None => Some(self.default_ask_timeout),
            },
            backpressure_strategy: match actor_config.backpressure_strategy {
                Some(b) => Some(b),
                None => Some(self.default_backpressure_strategy),
            },
        }
    }
}

/// Merging with the system defaults keeps every setting the actor made, and
/// merging an already merged configuration changes nothing.
pub proof fn law_merge_keeps_own_and_is_idempotent(system: ThreadActorSystemConfig, actor: ThreadActorConfig)
    ensures
        actor.scheduling_mode is Some ==> system.merged(actor).scheduling_mode == actor.scheduling_mode,
        actor.mailbox_capacity is Some ==> system.merged(actor).mailbox_capacity == actor.mailbox_capacity,
        actor.supervisor_strategy is Some ==> system.merged(actor).supervisor_strategy == actor.supervisor_strategy,
        actor.ask_timeout is Some ==> system.merged(actor).ask_timeout == actor.ask_timeout,
        actor.backpressure_strategy is Some ==> system.merged(actor).backpressure_strategy == actor.backpressure_strategy,
        system.merged(system.merged(actor)) == system.merged(actor),
{
}

} // verus!
