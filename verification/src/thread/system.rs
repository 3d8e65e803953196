//! The thread-based actor system: the registry of actors by path, the two
//! schedulers, and the decisions taken when actors are spawned, stopped,
//! watched or terminate, and when the system shuts down.
//!
//! Actors, actor references and mailboxes are referred to by handles (`u64`)
//! that the system's owner allocates and maps to the running objects; the
//! owner sends the messages and runs the tasks these decisions call for.

use vstd::prelude::*;
use std::time::Duration;
use crate::thread::actor::{ActorState, Reply, Step};
use crate::thread::config::{BackpressureStrategy, SchedulingMode, SupervisorStrategy, ThreadActorConfig, ThreadActorSystemConfig};
use crate::thread::envelope::ControlMessage;
use crate::thread::error::{anyhow_msg, anyhow_display, duration_debug, duration_to_debug_string, SpawnError, SystemError};
use crate::thread::registry::{views, PathRegistry};
use crate::thread::scheduler::dedicated::{thread_name_of, DedicatedThreadPool, ThreadPlan};
use crate::thread::scheduler::shared::pool::{SharedThreadPool, SharedThreadPoolConfig};
use crate::thread::text::{join2, join3, join4};
use crate::thread::time::millis;

verus! {

/// What the system keeps of each actor.
#[derive(Debug, Clone, Copy)]
pub struct ActorRegistryEntry {
    /// Handle of the reference used to send to the actor.
    pub actor_ref: u64,
    /// Handle of the actor's mailbox.
    pub mailbox: u64,
    /// The actor's configuration.
    pub config: ThreadActorConfig,
    /// Handle of the reference to the actor's supervisor (its parent), if any.
    pub supervisor: Option<u64>,
}

/// Which mailbox an actor gets.
#[derive(Debug, Clone, Copy, PartialEq, Eq, Structural)]
pub enum MailboxKind {
    /// A multi-producer channel, for actors in the shared pool.
    Mpsc,
    /// A single-producer ring buffer, for actors on a dedicated thread.
    SpscRingbuf,
}

/// How the owner sets up a newly spawned actor.
#[derive(Debug)]
pub struct SpawnPlan {
    /// The actor's path.
    pub path: String,
    /// The configuration the actor runs with.
    pub config: ThreadActorConfig,
    /// The kind of mailbox to create.
    pub mailbox_kind: MailboxKind,
    /// The capacity of the mailbox.
    pub mailbox_capacity: usize,
    /// The strategy the actor's context supervises its children with.
    pub supervisor_strategy: SupervisorStrategy,
    /// The backpressure strategy of the actor's reference.
    pub backpressure_strategy: BackpressureStrategy,
    /// The ask timeout of the actor's reference.
    pub ask_timeout: Duration,
    /// Handle of the parent's reference, when the parent is registered.
    pub parent_ref: Option<u64>,
    /// The dedicated thread to start, for an actor on a dedicated thread.
    pub thread: Option<ThreadPlan>,
}

/// The state of the system as its status reports it.
#[derive(Debug, Clone, Copy, PartialEq, Eq, Structural)]
pub enum SystemState {
    /// The system accepts work.
    Running,
    /// The system is shutting down.
    ShuttingDown,
}

/// The configuration an actor is spawned with: no setting of its own, so every
/// setting is the system's default.
pub open spec fn no_overrides() -> ThreadActorConfig {
    ThreadActorConfig {
        scheduling_mode: None,
        mailbox_capacity: None,
        supervisor_strategy: None,
        ask_timeout: None,
        backpressure_strategy: None,
    }
}

/// The path of the actor named `name` under the parent at `parent`, or at the
/// root when there is no parent.
pub open spec fn actor_path_of(parent: Option<Seq<char>>, name: Seq<char>) -> Seq<char> {
    match parent {
        Some(p) => p + "/"@ + name,
        None => "/"@ + name,
    }
}

/// The position of the last `/` in `s`, if any.
pub open spec fn last_slash(s: Seq<char>) -> Option<int>
    decreases s.len(),
{
    if s.len() == 0 {
        None
    } else if s.last() == '/' {
        Some(s.len() - 1)
    } else {
        last_slash(s.drop_last())
    }
}

/// The path of the parent of the actor at `path`: everything before its last
/// `/` (empty for a root actor), or none when the path has no `/`.
pub open spec fn parent_path_of(path: Seq<char>) -> Option<Seq<char>> {
    match last_slash(path) {
        Some(i) => Some(path.take(i)),
        None => None,
    }
}

/// The text of the error when a watch or unwatch request could not be sent.
pub open spec fn request_failure_text(what: Seq<char>, watcher: Seq<char>, target: Seq<char>, reason: Seq<char>) -> Seq<char> {
    "Failed to send "@ + what + " request from "@ + watcher + " to "@ + target + ": "@ + reason
}

/// The text of the error when a health check could not be sent.
pub open spec fn health_send_failure_text(path: Seq<char>, reason: Seq<char>) -> Seq<char> {
    "Failed to send health check to actor at "@ + path + ": "@ + reason
}

/// The text of the error when a health check was not answered with a state.
pub open spec fn health_reply_failure_text() -> Seq<char> {
    "Failed to extract actor state from health check response"@
}

/// The text of the error when the schedulers did not shut down in time.
pub open spec fn system_timeout_text(timeout: Duration) -> Seq<char> {
    "Actor system shutdown timed out after "@ + duration_debug(timeout)
}

/// The reason given to a parent when its child terminated for no given reason.
pub open spec fn unknown_reason_text() -> Seq<char> {
    "Unknown reason"@
}

/// The thread-based actor system's state and decisions.
pub struct ThreadActorSystem {
    config: ThreadActorSystemConfig,
    registry: PathRegistry<ActorRegistryEntry>,
    shared_scheduler: SharedThreadPool,
    dedicated_scheduler: DedicatedThreadPool,
    is_shutting_down: bool,
}

impl ThreadActorSystem {
    /// The system's configuration.
    pub closed spec fn spec_config(&self) -> ThreadActorSystemConfig {
        self.config
    }

    /// The registered actors, by path.
    pub closed spec fn actors(&self) -> Map<Seq<char>, ActorRegistryEntry> {
        self.registry@
    }

    /// The registered paths, in the order they were registered.
    pub closed spec fn actor_paths(&self) -> Seq<Seq<char>> {
        self.registry.paths()
    }

    /// The shared pool.
    pub closed spec fn shared(&self) -> SharedThreadPool {
        self.shared_scheduler
    }

    /// The pool of dedicated threads.
    pub closed spec fn dedicated(&self) -> DedicatedThreadPool {
        self.dedicated_scheduler
    }

    /// Whether the system is shutting down.
    pub closed spec fn shutting_down(&self) -> bool {
        self.is_shutting_down
    }

    /// The system's consistency.
    pub closed spec fn wf(&self) -> bool {
        &&& self.registry.wf()
        &&& self.shared_scheduler.wf()
        &&& self.dedicated_scheduler.wf()
    }

    /// A consistent system registers finitely many actors, one per listed
    /// path, and its schedulers hold finitely many actors.
    pub proof fn lemma_finite(&self)
        requires
            self.wf(),
        ensures
            self.actors().dom().finite(),
            self.actor_paths().to_set() == self.actors().dom(),
            self.actor_paths().no_duplicates(),
            self.actor_paths().len() == self.actors().len(),
            self.shared().scheduled().dom().finite(),
            self.dedicated().threads().dom().finite(),
    {
        self.registry.lemma_paths();
        self.shared_scheduler.lemma_finite();
        self.dedicated_scheduler.lemma_finite();
    }

    /// The configuration an actor of this system is spawned with.
    pub open spec fn spawn_config(&self) -> ThreadActorConfig {
        self.spec_config().merged(no_overrides())
    }

    /// A running system with no actor: a shared pool of the configured size
    /// and queue capacity, and a dedicated pool of the configured thread limit.
    pub fn new(config: ThreadActorSystemConfig) -> (s: Self)
        ensures
            s.wf(),
            s.spec_config() == config,
            s.actors() == Map::<Seq<char>, ActorRegistryEntry>::empty(),
            !s.shutting_down(),
            s.shared().spec_pool_size() == config.shared_pool_size,
            s.shared().spec_config().max_queue_capacity == config.shared_queue_capacity,
            !s.shared().shutting_down(),
            s.shared().scheduled() == Map::<Seq<char>, Option<ThreadActorConfig>>::empty(),
            s.dedicated().limit() == config.max_dedicated_threads,
            !s.dedicated().shutting_down(),
            s.dedicated().threads() == Map::<Seq<char>, ThreadActorConfig>::empty(),
    {
        let pool_config = SharedThreadPoolConfig {
            pool_size: config.shared_pool_size,
            max_queue_capacity: config.shared_queue_capacity,
            max_messages_per_batch: 10,
            idle_sleep_duration: millis(10),
            yield_after_each_message: false,
            enable_detailed_logging: false,
        };
        ThreadActorSystem {
            config,
            registry: PathRegistry::new(),
            shared_scheduler: SharedThreadPool::new(Some(pool_config)),
            dedicated_scheduler: DedicatedThreadPool::new(config.max_dedicated_threads),
            is_shutting_down: false,
        }
    }

    /// The configuration a system started from general settings runs with:
    /// a shared pool of `thread_pool_size` workers (as many as CPUs when unset)
    /// and a queue of 10000, at most 32 dedicated threads, shared-pool
    /// scheduling with runs of 10 messages, mailboxes of 1024, asks timing out
    /// after `message_handling_timeout`, children restarted at most
    /// `max_restarts` times within `restart_window`, blocking backpressure and
    /// shutdown within `system_shutdown_timeout`.
    pub fn start_config(
        thread_pool_size: Option<usize>,
        message_handling_timeout: Duration,
        max_restarts: u32,
        restart_window: Duration,
        system_shutdown_timeout: Duration,
    ) -> (c: ThreadActorSystemConfig)
        ensures
            thread_pool_size matches Some(n) ==> c.shared_pool_size == n,
            thread_pool_size is None ==> c.shared_pool_size >= 1,
            c.shared_queue_capacity == 10000,
            c.max_dedicated_threads == 32,
            c.default_scheduling_mode == (SchedulingMode::SharedPool { max_messages_per_run: 10 }),
            c.default_mailbox_capacity == 1024,
            c.default_ask_timeout == message_handling_timeout,
            c.default_supervisor_strategy == (SupervisorStrategy::Restart { max_retries: max_restarts as usize, within: restart_window }),
            c.default_backpressure_strategy == BackpressureStrategy::Block,
            c.shutdown_timeout == system_shutdown_timeout,
    {
        let pool_size = match thread_pool_size {
            Some(n) => n,
            None => crate::thread::config::available_cpus(),
        };
        ThreadActorSystemConfig {
            shared_pool_size: pool_size,
            shared_queue_capacity: 10000,
            max_dedicated_threads: 32,
            default_scheduling_mode: SchedulingMode::SharedPool { max_messages_per_run: 10 },
            default_mailbox_capacity: 1024,
            default_ask_timeout: message_handling_timeout,
            default_supervisor_strategy: SupervisorStrategy::Restart { max_retries: max_restarts as usize, within: restart_window },
            default_backpressure_strategy: BackpressureStrategy::Block,
            shutdown_timeout: system_shutdown_timeout,
        }
    }

    /// The system's configuration.
    pub fn config(&self) -> (c: &ThreadActorSystemConfig)
        ensures
            *c == self.spec_config(),
    {
        &self.config
    }

    /// Whether the system is shutting down.
    pub fn is_shutting_down(&self) -> (b: bool)
        ensures
            b == self.shutting_down(),
    {
        self.is_shutting_down
    }

    /// The ask timeout the system gives actors that have none.
    pub fn default_ask_timeout(&self) -> (d: Duration)
        ensures
            d == self.spec_config().default_ask_timeout,
    {
        self.config.default_ask_timeout
    }

    /// The backpressure strategy the system gives actors that have none.
    pub fn default_backpressure_strategy(&self) -> (b: BackpressureStrategy)
        ensures
            b == self.spec_config().default_backpressure_strategy,
    {
        self.config.default_backpressure_strategy
    }

    /// Hands the actor at `path` with mailbox `mailbox` to the scheduler its
    /// configuration names (see `spawn_internal`).
    fn schedule_actor(&mut self, path: &str, mailbox: u64, config: ThreadActorConfig) -> (r: Result<Option<ThreadPlan>, SystemError>)
        requires
            old(self).wf(),
            config.scheduling_mode is Some,
        ensures
            final(self).wf(),
            final(self).spec_config() == old(self).spec_config(),
            final(self).actors() == old(self).actors(),
            final(self).actor_paths() == old(self).actor_paths(),
            final(self).shutting_down() == old(self).shutting_down(),
            final(self).shared().spec_pool_size() == old(self).shared().spec_pool_size(),
            final(self).shared().spec_config() == old(self).shared().spec_config(),
            final(self).shared().shutting_down() == old(self).shared().shutting_down(),
            final(self).shared().spec_status() == old(self).shared().spec_status(),
            final(self).dedicated().shutting_down() == old(self).dedicated().shutting_down(),
            final(self).dedicated().limit() == old(self).dedicated().limit(),
            config.scheduling_mode matches Some(SchedulingMode::SharedPool { .. }) ==> {
                &&& final(self).dedicated().threads() == old(self).dedicated().threads()
                &&& old(self).shared().shutting_down() ==> {
                    &&& r matches Err(SystemError::ShuttingDown)
                    &&& final(self).shared().scheduled() == old(self).shared().scheduled()
                    &&& final(self).shared().queued() == old(self).shared().queued()
                }
                &&& !old(self).shared().shutting_down() ==> {
                    &&& r == Ok::<Option<ThreadPlan>, SystemError>(None)
                    &&& final(self).shared().scheduled() == old(self).shared().scheduled().insert(path@, Some(config))
                    &&& final(self).shared().queued() == old(self).shared().queued().push(mailbox)
                }
            },
            config.scheduling_mode matches Some(SchedulingMode::DedicatedThread) ==> {
                &&& final(self).shared().scheduled() == old(self).shared().scheduled()
                &&& final(self).shared().queued() == old(self).shared().queued()
                &&& old(self).dedicated().shutting_down() ==> (r matches Err(SystemError::ShuttingDown))
                &&& !old(self).dedicated().shutting_down() && old(self).dedicated().threads().contains_key(path@) ==>
                    (r matches Err(SystemError::ConfigError(t)) && t@ == crate::thread::scheduler::dedicated::already_scheduled_text(path@))
                &&& !old(self).dedicated().shutting_down() && !old(self).dedicated().threads().contains_key(path@)
                    && old(self).dedicated().threads().len() >= old(self).dedicated().limit() ==>
                    (r matches Err(SystemError::ConfigError(t)) && t@ == crate::thread::scheduler::dedicated::pool_full_text(old(self).dedicated().limit()))
                &&& r is Err ==> final(self).dedicated().threads() == old(self).dedicated().threads()
                &&& !old(self).dedicated().shutting_down() && !old(self).dedicated().threads().contains_key(path@)
                    && old(self).dedicated().threads().len() < old(self).dedicated().limit() ==> {
                    &&& r matches Ok(Some(plan)) && plan.thread_name@ == thread_name_of(path@) && plan.config == config
                    &&& final(self).dedicated().threads() == old(self).dedicated().threads().insert(path@, config)
                }
            },
    {
        match config.scheduling_mode {
            Some(SchedulingMode::SharedPool { .. }) => {
                match self.shared_scheduler.schedule(path, mailbox, Some(config)) {
                    Ok(()) => Ok(None),
                    Err(e) => Err(e),
                }
            },
            _ => {
                match self.dedicated_scheduler.plan_schedule(path, Some(config)) {
                    Ok(plan) => {
                        self.dedicated_scheduler.record_thread(String::from_str(path), plan.config);
                        Ok(Some(plan))
                    },
                    Err(e) => Err(e),
                }
            },
        }
    }

    /// Spawns the actor named `actor_name` under the parent at `parent_path`
    /// (at the root when there is none), with the reference and mailbox
    /// handles its owner reserved. A shutting-down system refuses with
    /// `SystemShutdown`, a taken path with `ActorPathAlreadyExists`. The actor
    /// runs with the system's defaults; it is registered, then handed to the
    /// scheduler its scheduling mode names, and when that scheduler refuses it
    /// is unregistered and the spawn fails with `SchedulerError`. The answer
    /// tells the owner how to set the actor up.
    #[verifier::rlimit(40)]
    pub fn spawn_internal(&mut self, parent_path: Option<&str>, actor_name: &str, actor_ref: u64, mailbox: u64) -> (r: Result<SpawnPlan, SpawnError>)
        requires
            old(self).wf(),
        ensures
            final(self).wf(),
            final(self).spec_config() == old(self).spec_config(),
            final(self).shutting_down() == old(self).shutting_down(),
            ({
                let path = actor_path_of(match parent_path { Some(p) => Some(p@), None => None }, actor_name@);
                let config = old(self).spawn_config();
                let parent_ref = match parent_path {
                    Some(p) => if old(self).actors().contains_key(p@) { Some(old(self).actors()[p@].actor_ref) } else { None },
                    None => None,
                };
                &&& old(self).shutting_down() ==> (r matches Err(SpawnError::SystemShutdown))
                &&& !old(self).shutting_down() && old(self).actors().contains_key(path) ==>
                    (r matches Err(SpawnError::ActorPathAlreadyExists(p)) && p@ == path)
                &&& r is Err ==> {
                    &&& final(self).actors() == old(self).actors()
                    &&& final(self).shared().scheduled() == old(self).shared().scheduled()
                    &&& final(self).shared().queued() == old(self).shared().queued()
                    &&& final(self).dedicated().threads() == old(self).dedicated().threads()
                }
                &&& !old(self).shutting_down() && !old(self).actors().contains_key(path) ==> {
                    &&& config.scheduling_mode matches Some(SchedulingMode::SharedPool { .. }) ==> {
                        &&& old(self).shared().shutting_down() ==>
                            (r matches Err(SpawnError::SchedulerError(t)) && t@ == SystemError::ShuttingDown.text())
                        &&& !old(self).shared().shutting_down() ==> {
                            &&& r is Ok
                            &&& r->Ok_0.mailbox_kind == MailboxKind::Mpsc
                            &&& r->Ok_0.thread is None
                            &&& final(self).shared().scheduled() == old(self).shared().scheduled().insert(path, Some(config))
                            &&& final(self).shared().queued() == old(self).shared().queued().push(mailbox)
                            &&& final(self).dedicated().threads() == old(self).dedicated().threads()
                        }
                    }
                    &&& config.scheduling_mode matches Some(SchedulingMode::DedicatedThread) ==> {
                        &&& old(self).dedicated().shutting_down() ==>
                            (r matches Err(SpawnError::SchedulerError(t)) && t@ == SystemError::ShuttingDown.text())
                        &&& !old(self).dedicated().shutting_down() && old(self).dedicated().threads().contains_key(path) ==>
                            (r matches Err(SpawnError::SchedulerError(t))
                                && t@ == "Configuration error: "@ + crate::thread::scheduler::dedicated::already_scheduled_text(path))
                        &&& !old(self).dedicated().shutting_down() && !old(self).dedicated().threads().contains_key(path)
                            && old(self).dedicated().threads().len() >= old(self).dedicated().limit() ==>
                            (r matches Err(SpawnError::SchedulerError(t))
                                && t@ == "Configuration error: "@ + crate::thread::scheduler::dedicated::pool_full_text(old(self).dedicated().limit()))
                        &&& !old(self).dedicated().shutting_down() && !old(self).dedicated().threads().contains_key(path)
                            && old(self).dedicated().threads().len() < old(self).dedicated().limit() ==> {
                            &&& r is Ok
                            &&& r->Ok_0.mailbox_kind == MailboxKind::SpscRingbuf
                            &&& r->Ok_0.thread matches Some(t) && t.thread_name@ == thread_name_of(path) && t.config == config
                            &&& final(self).dedicated().threads() == old(self).dedicated().threads().insert(path, config)
                            &&& final(self).shared().scheduled() == old(self).shared().scheduled()
                            &&& final(self).shared().queued() == old(self).shared().queued()
                        }
                    }
                }
                &&& r is Ok ==> {
                    &&& final(self).actors().len() == old(self).actors().len() + 1
                    &&& r->Ok_0.path@ == path
                    &&& r->Ok_0.config == config
                    &&& r->Ok_0.mailbox_capacity == old(self).spec_config().default_mailbox_capacity
                    &&& r->Ok_0.supervisor_strategy == old(self).spec_config().default_supervisor_strategy
                    &&& r->Ok_0.backpressure_strategy == old(self).spec_config().default_backpressure_strategy
                    &&& r->Ok_0.ask_timeout == old(self).spec_config().default_ask_timeout
                    &&& r->Ok_0.parent_ref == parent_ref
                    &&& final(self).actors() == old(self).actors().insert(path, ActorRegistryEntry {
                        actor_ref,
                        mailbox,
                        config,
                        supervisor: parent_ref,
                    })
                }
            }),
    {
        if self.is_shutting_down {
            return Err(SpawnError::SystemShutdown);
        }
        let path = match parent_path {
            Some(parent) => join3(parent, "/", actor_name),
            None => join2("/", actor_name),
        };
        if self.registry.contains(path.as_str()) {
            return Err(SpawnError::ActorPathAlreadyExists(path));
        }
        let parent_ref = match parent_path {
            Some(parent) => match self.registry.get(parent) {
                Some(entry) => Some(entry.actor_ref),
                None => None,
            },
            None => None,
        };
        let actor_config = ThreadActorConfig::default();
        let config = self.config.merge_with_actor_config(&actor_config);
        let mailbox_kind = match config.scheduling_mode {
            Some(SchedulingMode::DedicatedThread) => MailboxKind::SpscRingbuf,
            _ => MailboxKind::Mpsc,
        };
        let mailbox_capacity = match config.mailbox_capacity {
            Some(c) => c,
            None => 1024,
        };
        let supervisor_strategy = match config.supervisor_strategy {
            Some(s) => s,
            None => SupervisorStrategy::Stop,
        };
        let backpressure_strategy = match config.backpressure_strategy {
            Some(b) => b,
            None => BackpressureStrategy::Block,
        };
        let ask_timeout = match config.ask_timeout {
            Some(t) => t,
            None => crate::thread::time::secs(5),
        };
        let entry = ActorRegistryEntry { actor_ref, mailbox, config, supervisor: parent_ref };
        let ghost before = self.registry@;
        let ghost before_paths = self.registry.paths();
        self.registry.insert(path.clone(), entry);
        proof {
            old(self).registry.lemma_paths();
            assert(self.registry@.dom() =~= before.dom().insert(path@));
        }
        match self.schedule_actor(path.as_str(), mailbox, config) {
            Ok(thread) => Ok(SpawnPlan {
                path,
                config,
                mailbox_kind,
                mailbox_capacity,
                supervisor_strategy,
                backpressure_strategy,
                ask_timeout,
                parent_ref,
                thread,
            }),
            Err(e) => {
                self.registry.remove(path.as_str());
                proof {
                    assert(self.registry@ =~= before);
                }
                Err(SpawnError::SchedulerError(e.to_string()))
            },
        }
    }

    /// The owner could not spawn the dedicated thread that `spawn_internal`
    /// planned for the actor at `path` (for `reason`): the actor is
    /// unregistered, its thread record dropped, and the spawn fails with
    /// `SchedulerError`, as when the scheduler refuses.
    pub fn dedicated_spawn_failed(&mut self, path: &str, reason: &str) -> (e: SpawnError)
        requires
            old(self).wf(),
        ensures
            final(self).wf(),
            final(self).actors() == old(self).actors().remove(path@),
            final(self).dedicated().threads() == old(self).dedicated().threads().remove(path@),
            final(self).dedicated().limit() == old(self).dedicated().limit(),
            final(self).dedicated().shutting_down() == old(self).dedicated().shutting_down(),
            final(self).shared() == old(self).shared(),
            final(self).spec_config() == old(self).spec_config(),
            final(self).shutting_down() == old(self).shutting_down(),
            e matches SpawnError::SchedulerError(t)
                && t@ == "Internal system error: "@ + crate::thread::scheduler::dedicated::spawn_failure_text(reason@),
    {
        let err = self.dedicated_scheduler.thread_spawn_failed(path, reason);
        self.registry.remove(path);
        SpawnError::SchedulerError(err.to_string())
    }

    /// Stops the actor at `path`. A shutting-down system does nothing
    /// (`(None, Ok)`). An unknown actor gives `ActorNotFound`. Otherwise the
    /// answer names the reference to send `Stop` to, and the actor is taken
    /// from its scheduler; when the scheduler refuses, its error is the answer
    /// and the actor stays registered, else the actor is unregistered.
    pub fn stop_by_path(&mut self, path: &str) -> (r: (Option<u64>, Result<(), SystemError>))
        requires
            old(self).wf(),
        ensures
            final(self).wf(),
            final(self).spec_config() == old(self).spec_config(),
            final(self).shutting_down() == old(self).shutting_down(),
            final(self).shared().spec_status() == old(self).shared().spec_status(),
            final(self).shared().shutting_down() == old(self).shared().shutting_down(),
            final(self).shared().queued() == old(self).shared().queued(),
            final(self).shared().spec_pool_size() == old(self).shared().spec_pool_size(),
            final(self).shared().spec_config() == old(self).shared().spec_config(),
            final(self).dedicated().shutting_down() == old(self).dedicated().shutting_down(),
            final(self).dedicated().limit() == old(self).dedicated().limit(),
            old(self).shutting_down() ==> {
                &&& r.0 is None && r.1 is Ok
                &&& final(self).actors() == old(self).actors()
                &&& final(self).shared().scheduled() == old(self).shared().scheduled()
                &&& final(self).dedicated().threads() == old(self).dedicated().threads()
            },
            !old(self).shutting_down() && !old(self).actors().contains_key(path@) ==> {
                &&& r.0 is None
                &&& r.1 matches Err(SystemError::ActorNotFound(p)) && p@ == path@
                &&& final(self).actors() == old(self).actors()
                &&& final(self).shared().scheduled() == old(self).shared().scheduled()
                &&& final(self).dedicated().threads() == old(self).dedicated().threads()
            },
            !old(self).shutting_down() && old(self).actors().contains_key(path@) ==> ({
                let entry = old(self).actors()[path@];
                &&& r.0 == Some(entry.actor_ref)
                &&& entry.config.scheduling_mode matches Some(SchedulingMode::DedicatedThread) ==> {
                    &&& final(self).dedicated().threads() == old(self).dedicated().threads().remove(path@)
                    &&& final(self).shared().scheduled() == old(self).shared().scheduled()
                    &&& old(self).dedicated().threads().contains_key(path@) <==> r.1 is Ok
                    &&& !old(self).dedicated().threads().contains_key(path@) ==> (r.1 matches Err(SystemError::ActorNotFound(p)) && p@ == path@)
                }
                &&& !(entry.config.scheduling_mode matches Some(SchedulingMode::DedicatedThread)) ==> {
                    &&& final(self).shared().scheduled() == old(self).shared().scheduled().remove(path@)
                    &&& final(self).dedicated().threads() == old(self).dedicated().threads()
                    &&& old(self).shared().scheduled().contains_key(path@) <==> r.1 is Ok
                    &&& !old(self).shared().scheduled().contains_key(path@) ==> (r.1 matches Err(SystemError::ActorNotFound(p)) && p@ == path@)
                }
                &&& r.1 is Ok ==> final(self).actors() == old(self).actors().remove(path@)
                &&& r.1 is Err ==> final(self).actors() == old(self).actors()
            }),
    {
        if self.is_shutting_down {
            return (None, Ok(()));
        }
        let (config, actor_ref) = match self.registry.get(path) {
            Some(entry) => (entry.config, entry.actor_ref),
            None => {
                return (None, Err(SystemError::ActorNotFound(String::from_str(path))));
            },
        };
        let descheduled = match config.scheduling_mode {
            Some(SchedulingMode::DedicatedThread) => match self.dedicated_scheduler.deschedule(path, false, None) {
                Ok(_) => Ok(()),
                Err(e) => Err(e),
            },
            _ => self.shared_scheduler.deschedule(path),
        };
        match descheduled {
            Ok(()) => {
                self.registry.remove(path);
                (Some(actor_ref), Ok(()))
            },
            Err(e) => (Some(actor_ref), Err(e)),
        }
    }

    /// The reference of the actor at `path`, if it is registered.
    pub fn get_actor(&self, path: &str) -> (r: Option<u64>)
        ensures
            r == (if self.actors().contains_key(path@) { Some(self.actors()[path@].actor_ref) } else { None::<u64> }),
    {
        match self.registry.get(path) {
            Some(entry) => Some(entry.actor_ref),
            None => None,
        }
    }

    /// The mailbox of the actor at `path`, if it is registered.
    pub fn lookup(&self, path: &str) -> (r: Option<u64>)
        ensures
            r == (if self.actors().contains_key(path@) { Some(self.actors()[path@].mailbox) } else { None::<u64> }),
    {
        match self.registry.get(path) {
            Some(entry) => Some(entry.mailbox),
            None => None,
        }
    }

    /// Checks a watch (or unwatch) of the actor at `target_path` by the actor
    /// at `watcher_path`: both must be registered, the target first
    /// (`ActorNotFound` names the missing one). The answer is the target's
    /// reference, to which the owner sends the request.
    pub fn watch(&self, watcher_path: &str, target_path: &str) -> (r: Result<u64, SystemError>)
        ensures
            !self.actors().contains_key(target_path@) ==> (r matches Err(SystemError::ActorNotFound(p)) && p@ == target_path@),
            self.actors().contains_key(target_path@) && !self.actors().contains_key(watcher_path@) ==>
                (r matches Err(SystemError::ActorNotFound(p)) && p@ == watcher_path@),
            self.actors().contains_key(target_path@) && self.actors().contains_key(watcher_path@) ==>
                r == Ok::<u64, SystemError>(self.actors()[target_path@].actor_ref),
    {
        let target_ref = match self.get_actor(target_path) {
            Some(t) => t,
            None => {
                return Err(SystemError::ActorNotFound(String::from_str(target_path)));
            },
        };
        if self.get_actor(watcher_path).is_none() {
            return Err(SystemError::ActorNotFound(String::from_str(watcher_path)));
        }
        Ok(target_ref)
    }

    /// Checks an unwatch; the same checks as `watch`.
    pub fn unwatch(&self, watcher_path: &str, target_path: &str) -> (r: Result<u64, SystemError>)
        ensures
            !self.actors().contains_key(target_path@) ==> (r matches Err(SystemError::ActorNotFound(p)) && p@ == target_path@),
            self.actors().contains_key(target_path@) && !self.actors().contains_key(watcher_path@) ==>
                (r matches Err(SystemError::ActorNotFound(p)) && p@ == watcher_path@),
            self.actors().contains_key(target_path@) && self.actors().contains_key(watcher_path@) ==>
                r == Ok::<u64, SystemError>(self.actors()[target_path@].actor_ref),
    {
        self.watch(watcher_path, target_path)
    }

    /// The error when a watch (`unwatch` false) or unwatch (`unwatch` true)
    /// request from `watcher_path` to `target_path` could not be sent for `reason`.
    pub fn request_failure(unwatch: bool, watcher_path: &str, target_path: &str, reason: &str) -> (e: SystemError)
        ensures
            e matches SystemError::Other(a) && anyhow_display(a) == request_failure_text(
                if unwatch { "unwatch"@ } else { "watch"@ }, watcher_path@, target_path@, reason@),
    {
        let what = if unwatch { "unwatch" } else { "watch" };
        let head = join4("Failed to send ", what, " request from ", watcher_path);
        let middle = join4(head.as_str(), " to ", target_path, ": ");
        SystemError::Other(anyhow_msg(join2(middle.as_str(), reason)))
    }

    /// Checks a health check of the actor at `path`: it must be registered.
    /// The answer is its reference, to which the owner sends `HealthCheck`.
    pub fn check_health(&self, path: &str) -> (r: Result<u64, SystemError>)
        ensures
            !self.actors().contains_key(path@) ==> (r matches Err(SystemError::ActorNotFound(p)) && p@ == path@),
            self.actors().contains_key(path@) ==> r == Ok::<u64, SystemError>(self.actors()[path@].actor_ref),
    {
        match self.get_actor(path) {
            Some(r) => Ok(r),
            None => Err(SystemError::ActorNotFound(String::from_str(path))),
        }
    }

    /// Reads the answer to a health check of the actor at `path`: a state is
    /// the answer; any other reply, or a failure to send (`Err` with its
    /// reason), is an error.
    pub fn health_from_reply(path: &str, reply: Result<Reply, String>) -> (r: Result<ActorState, SystemError>)
        ensures
            reply matches Ok(Reply::State(s)) ==> r == Ok::<ActorState, SystemError>(s),
            reply matches Ok(Reply::Unit) ==> (r matches Err(SystemError::Other(a)) && anyhow_display(a) == health_reply_failure_text()),
            reply matches Err(reason) ==> (r matches Err(SystemError::Other(a)) && anyhow_display(a) == health_send_failure_text(path@, reason@)),
    {
        match reply {
            Ok(Reply::State(s)) => Ok(s),
            Ok(Reply::Unit) => Err(SystemError::Other(anyhow_msg(String::from_str("Failed to extract actor state from health check response")))),
            Err(reason) => {
                let head = join3("Failed to send health check to actor at ", path, ": ");
                Err(SystemError::Other(anyhow_msg(join2(head.as_str(), reason.as_str()))))
            },
        }
    }

    /// Handles the termination of the actor at `path`: when its parent (the
    /// path before the last `/`) is registered, the answer is the parent's
    /// reference with the `ChildFailure` to send it (the reason defaulting to
    /// "Unknown reason"); the actor is unregistered.
    pub fn handle_actor_termination(&mut self, path: &str, reason: Option<String>) -> (r: Option<(u64, ControlMessage)>)
        requires
            old(self).wf(),
        ensures
            final(self).wf(),
            final(self).actors() == old(self).actors().remove(path@),
            final(self).spec_config() == old(self).spec_config(),
            final(self).shutting_down() == old(self).shutting_down(),
            final(self).shared() == old(self).shared(),
            final(self).dedicated() == old(self).dedicated(),
            match parent_path_of(path@) {
                Some(pp) => if old(self).actors().contains_key(pp) {
                    r matches Some((parent_ref, ControlMessage::ChildFailure { path: p, reason: why }))
                        && parent_ref == old(self).actors()[pp].actor_ref
                        && p@ == path@
                        && why@ == match reason { Some(t) => t@, None => unknown_reason_text() }
                } else {
                    r is None
                },
                None => r is None,
            },
    {
        let parent = parent_path(path);
        let r = match parent {
            Some(pp) => match self.get_actor(pp.as_str()) {
                Some(parent_ref) => {
                    let why = match reason {
                        Some(t) => t,
                        None => String::from_str("Unknown reason"),
                    };
                    Some((parent_ref, ControlMessage::ChildFailure { path: String::from_str(path), reason: why }))
                },
                None => None,
            },
            None => None,
        };
        self.registry.remove(path);
        r
    }

    /// Shuts the system down, stopping every actor: it refuses further spawns,
    /// the answer lists the references to send `SystemShutdown` to (one per
    /// registered actor, in registration order) and the actors whose dedicated
    /// threads to stop and join; every actor is taken from the shared pool and
    /// unregistered, and both schedulers are shut down.
    pub fn shutdown_internal(&mut self) -> (r: (Vec<u64>, Vec<String>))
        requires
            old(self).wf(),
        ensures
            final(self).wf(),
            final(self).shutting_down(),
            final(self).actors() == Map::<Seq<char>, ActorRegistryEntry>::empty(),
            final(self).spec_config() == old(self).spec_config(),
            r.0@.len() == old(self).actors().len(),
            forall|i: int| #![trigger r.0@[i]] 0 <= i < r.0@.len() ==> r.0@[i] == old(self).actors()[old(self).actor_paths()[i]].actor_ref,
            views(r.1@).to_set() == old(self).dedicated().threads().dom(),
            forall|p: Seq<char>| old(self).actors().contains_key(p) ==> !(#[trigger] final(self).shared().scheduled().contains_key(p)),
            final(self).shared().shutting_down(),
            final(self).shared().spec_status() == crate::thread::scheduler::dedicated_thread::SchedulerStatus::Shutdown,
            final(self).dedicated().shutting_down(),
            final(self).dedicated().threads() == Map::<Seq<char>, ThreadActorConfig>::empty(),
    {
        self.is_shutting_down = true;
        let entries = self.registry.value_list();
        let mut targets: Vec<u64> = Vec::new();
        let mut i: usize = 0;
        while i < entries.len()
            invariant
                i <= entries@.len(),
                targets@.len() == i,
                forall|j: int| #![trigger targets@[j]] 0 <= j < i ==> targets@[j] == entries@[j].actor_ref,
            decreases entries.len() - i,
        {
            targets.push(entries[i].actor_ref);
            i = i + 1;
        }
        let paths = self.registry.path_list();
        proof {
            self.registry.lemma_paths();
        }
        let mut k: usize = 0;
        while k < paths.len()
            invariant
                self.shared_scheduler.wf(),
                self.dedicated_scheduler == old(self).dedicated_scheduler,
                self.config == old(self).config,
                self.is_shutting_down,
                k <= paths@.len(),
                views(paths@) == old(self).actor_paths(),
                forall|j: int| 0 <= j < k ==> !(#[trigger] self.shared_scheduler.scheduled().contains_key(views(paths@)[j])),
            decreases paths.len() - k,
        {
            let _ = self.shared_scheduler.deschedule(paths[k].as_str());
            proof {
                assert(views(paths@)[k as int] == paths@[k as int]@);
            }
            k = k + 1;
        }
        proof {
            assert forall|p: Seq<char>| old(self).actors().contains_key(p) implies
                !(#[trigger] self.shared_scheduler.scheduled().contains_key(p)) by {
                assert(old(self).actor_paths().contains(p));
                let j = choose|j: int| 0 <= j < old(self).actor_paths().len() && old(self).actor_paths()[j] == p;
                assert(views(paths@)[j] == p);
            }
        }
        self.registry = PathRegistry::new();
        let _ = self.shared_scheduler.shutdown(5000);
        let threads = self.dedicated_scheduler.shutdown();
        (targets, threads)
    }

    /// The error when the schedulers did not shut down within `timeout`.
    pub fn shutdown_timeout_error(timeout: &Duration) -> (e: SystemError)
        ensures
            e matches SystemError::Timeout(t) && t@ == system_timeout_text(*timeout),
    {
        let d = duration_to_debug_string(timeout);
        SystemError::Timeout(join2("Actor system shutdown timed out after ", d.as_str()))
    }

    /// The system's state and its number of registered actors.
    pub fn status(&self) -> (r: (SystemState, usize))
        ensures
            r.0 == (if self.shutting_down() { SystemState::ShuttingDown } else { SystemState::Running }),
            r.1 == self.actors().len(),
    {
        let state = if self.is_shutting_down { SystemState::ShuttingDown } else { SystemState::Running };
        (state, self.registry.len())
    }

    /// The references a broadcast is sent to: one per registered actor.
    pub fn broadcast_targets(&self) -> (r: Vec<u64>)
        requires
            self.wf(),
        ensures
            r@.len() == self.actors().len(),
            forall|i: int| #![trigger r@[i]] 0 <= i < r@.len() ==> r@[i] == self.actors()[self.actor_paths()[i]].actor_ref,
    {
        let entries = self.registry.value_list();
        let mut targets: Vec<u64> = Vec::new();
        let mut i: usize = 0;
        while i < entries.len()
            invariant
                i <= entries@.len(),
                targets@.len() == i,
                forall|j: int| #![trigger targets@[j]] 0 <= j < i ==> targets@[j] == entries@[j].actor_ref,
            decreases entries.len() - i,
        {
            targets.push(entries[i].actor_ref);
            i = i + 1;
        }
        targets
    }

    /// Handles a panic of the actor at `path` caught by a worker: the actor is
    /// stopped (see `stop_by_path`).
    pub fn handle_panic(&mut self, path: &str) -> (r: (Option<u64>, Result<(), SystemError>))
        requires
            old(self).wf(),
        ensures
            final(self).wf(),
            final(self).shutting_down() == old(self).shutting_down(),
            old(self).shutting_down() ==> r.0 is None && r.1 is Ok && final(self).actors() == old(self).actors(),
            !old(self).shutting_down() && !old(self).actors().contains_key(path@) ==> r.0 is None && r.1 is Err,
            !old(self).shutting_down() && old(self).actors().contains_key(path@) ==> r.0 == Some(old(self).actors()[path@].actor_ref),
            r.1 is Ok && !old(self).shutting_down() ==> final(self).actors() == old(self).actors().remove(path@),
    {
        self.stop_by_path(path)
    }
}

/// Spawning an actor at a free path and then stopping it (its scheduler
/// letting it go) leaves the registry as it was: `spawn_internal` inserts the
/// path, `stop_by_path` removes it.
pub proof fn law_spawn_then_stop_restores_registry(
    before: Map<Seq<char>, ActorRegistryEntry>,
    path: Seq<char>,
    entry: ActorRegistryEntry,
)
    requires
        !before.contains_key(path),
    ensures
        before.insert(path, entry).remove(path) == before,
        before.insert(path, entry).contains_key(path),
        before.insert(path, entry)[path] == entry,
{
    assert(before.insert(path, entry).remove(path) =~= before);
}

/// An actor's parent is at a shorter path: the path before its last `/`.
pub proof fn law_parent_is_a_prefix(path: Seq<char>)
    ensures
        parent_path_of(path) matches Some(p) ==> p.len() < path.len() && p == path.take(p.len() as int)
            && path[p.len() as int] == '/',
{
    lemma_last_slash_bounds(path);
}

/// An actor's parent path is cut at the last `/` of its path: no `/` follows
/// it, a path without `/` has no parent, and the actor `name` (without `/`)
/// under `parent` has the parent `parent`.
pub proof fn law_parent_is_cut_at_the_last_slash(path: Seq<char>, parent: Seq<char>, name: Seq<char>)
    ensures
        parent_path_of(path) matches Some(p) ==> {
            &&& p.len() < path.len()
            &&& path[p.len() as int] == '/'
            &&& p == path.take(p.len() as int)
            &&& forall|j: int| p.len() < j < path.len() ==> path[j] != '/'
        },
        parent_path_of(path) is None <==> forall|j: int| 0 <= j < path.len() ==> path[j] != '/',
        (forall|j: int| 0 <= j < name.len() ==> name[j] != '/') ==> parent_path_of(parent + seq!['/'] + name) == Some(parent),
{
    lemma_last_slash_bounds(path);
    lemma_last_slash_is_last(path);
    if exists|j: int| 0 <= j < path.len() && path[j] == '/' {
        let j = choose|j: int| 0 <= j < path.len() && path[j] == '/';
        assert(path[j] == '/');
    }
    if forall|j: int| 0 <= j < name.len() ==> name[j] != '/' {
        let s = parent + seq!['/'] + name;
        let k: int = parent.len() as int + 1;
        assert forall|j: int| k <= j < s.len() implies s[j] != '/' by {
            assert(s[j] == name[j - k]);
        }
        lemma_last_slash_after(s, k);
        assert(s.take(k).last() == '/');
        assert(s.take(k).take(parent.len() as int) =~= parent);
        assert(s.take(parent.len() as int) =~= parent);
    }
}

/// No `/` follows the one `last_slash` finds, and it finds one whenever there is one.
proof fn lemma_last_slash_is_last(s: Seq<char>)
    ensures
        last_slash(s) matches Some(i) ==> forall|j: int| i < j < s.len() ==> s[j] != '/',
        last_slash(s) is None ==> forall|j: int| 0 <= j < s.len() ==> s[j] != '/',
    decreases s.len(),
{
    if s.len() > 0 && s.last() != '/' {
        let t = s.drop_last();
        lemma_last_slash_is_last(t);
        lemma_last_slash_bounds(t);
        assert(last_slash(s) == last_slash(t));
        match last_slash(t) {
            Some(i) => {
                assert forall|j: int| i < j < s.len() implies s[j] != '/' by {
                    if j < s.len() - 1 {
                        assert(s[j] == t[j]);
                    }
                }
            },
            None => {
                assert forall|j: int| 0 <= j < s.len() implies s[j] != '/' by {
                    if j < s.len() - 1 {
                        assert(s[j] == t[j]);
                    }
                }
            },
        }
    }
}

/// Where `last_slash` answers, there is a `/`.
proof fn lemma_last_slash_bounds(s: Seq<char>)
    ensures
        last_slash(s) matches Some(i) ==> 0 <= i < s.len() && s[i] == '/',
    decreases s.len(),
{
    if s.len() > 0 && s.last() != '/' {
        lemma_last_slash_bounds(s.drop_last());
    }
}

/// The path before the last `/` of `path`, if it has one.
pub fn parent_path(path: &str) -> (r: Option<String>)
    ensures
        match parent_path_of(path@) {
            Some(p) => r matches Some(s) && s@ == p,
            None => r is None,
        },
{
    let n = path.unicode_len();
    let mut i: usize = n;
    while i > 0
        invariant
            n == path@.len(),
            i <= n,
            forall|j: int| i <= j < n ==> path@[j] != '/',
        decreases i,
    {
        if path.get_char(i - 1) == '/' {
            proof {
                lemma_last_slash_after(path@, i as int);
                assert(path@.take(i as int).last() == '/');
            }
            let head = path.substring_char(0, i - 1);
            proof {
                assert(path@.take(i as int).take(i - 1) =~= path@.take(i - 1));
            }
            return Some(String::from_str(head));
        }
        i = i - 1;
    }
    proof {
        lemma_last_slash_after(path@, 0);
    }
    None
}

/// Characters after position `k` that are no `/` do not change where the last `/` is.
proof fn lemma_last_slash_after(s: Seq<char>, k: int)
    requires
        0 <= k <= s.len(),
        forall|j: int| k <= j < s.len() ==> s[j] != '/',
    ensures
        last_slash(s) == last_slash(s.take(k)),
    decreases s.len() - k,
{
    if k < s.len() {
        assert(s.drop_last().take(k) =~= s.take(k));
        lemma_last_slash_after(s.drop_last(), k);
    } else {
        assert(s.take(k) =~= s);
    }
}

} // verus!
