//! The dedicated thread pool: at most a fixed number of actors, each on its own OS thread.

use vstd::prelude::*;
use crate::thread::config::ThreadActorConfig;
use crate::thread::mailbox::Mailbox;
use crate::thread::error::{anyhow_display, anyhow_msg, SystemError};
use crate::thread::registry::{views, PathRegistry};
use crate::thread::text::{decimal, decimal_string, decimal_string_u64, join2, join3, replace_char, slashes_to_dashes};

verus! {

/// How long `deschedule` waits for a thread to finish when no timeout is given (milliseconds).
pub const DEFAULT_JOIN_TIMEOUT_MILLIS: u64 = 5000;

/// How to start the thread of a newly scheduled actor.
#[derive(Debug)]
pub struct ThreadPlan {
    /// Name of the OS thread.
    pub thread_name: String,
    /// The actor's configuration, kept for restart and recovery.
    pub config: ThreadActorConfig,
}

/// The name of the dedicated thread of the actor at `path`.
pub open spec fn thread_name_of(path: Seq<char>) -> Seq<char> {
    "dedicated-actor-"@ + replace_char(path, '/', '-')
}

/// The text of the error for an actor that already has a thread.
pub open spec fn already_scheduled_text(path: Seq<char>) -> Seq<char> {
    "Actor '"@ + path + "' already has a dedicated thread"@
}

/// The text of the error when every allowed thread is taken.
pub open spec fn pool_full_text(max_threads: nat) -> Seq<char> {
    "Maximum number of dedicated threads ("@ + decimal(max_threads) + ") reached"@
}

/// The text of the error when the owner could not spawn a dedicated thread.
pub open spec fn spawn_failure_text(reason: Seq<char>) -> Seq<char> {
    "Failed to spawn dedicated thread: "@ + reason
}

/// The text of the error when shutdown waited in vain.
pub open spec fn shutdown_timeout_text(timeout_ms: nat) -> Seq<char> {
    "Timeout after "@ + decimal(timeout_ms) + "ms"@
}

/// The decisions of the dedicated thread pool: which actors own a thread (with
/// their configuration), how many threads are allowed, and whether it is
/// shutting down. Spawning, signalling and joining the threads is left to its
/// owner, which follows these decisions.
pub struct DedicatedThreadPool {
    threads: PathRegistry<ThreadActorConfig>,
    is_shutting_down: bool,
    max_threads: usize,
}

impl DedicatedThreadPool {
    /// The actors that own a thread, with their configurations.
    pub closed spec fn threads(&self) -> Map<Seq<char>, ThreadActorConfig> {
        self.threads@
    }

    /// Whether the pool is shutting down.
    pub closed spec fn shutting_down(&self) -> bool {
        self.is_shutting_down
    }

    /// The most threads the pool allows.
    pub closed spec fn limit(&self) -> nat {
        self.max_threads as nat
    }

    /// The pool's consistency: never more threads than allowed.
    pub closed spec fn wf(&self) -> bool {
        &&& self.threads.wf()
        &&& self.threads@.len() <= self.max_threads
    }

    /// A consistent pool has finitely many threads.
    pub proof fn lemma_finite(&self)
        requires
            self.wf(),
        ensures
            self.threads().dom().finite(),
    {
        self.threads.lemma_paths();
    }

    /// An empty pool that allows `max_threads` threads.
    pub fn new(max_threads: usize) -> (p: Self)
        ensures
            p.wf(),
            p.threads() == Map::<Seq<char>, ThreadActorConfig>::empty(),
            !p.shutting_down(),
            p.limit() == max_threads,
    {
        DedicatedThreadPool { threads: PathRegistry::new(), is_shutting_down: false, max_threads }
    }

    /// Decides whether the actor at `path` may get a thread. A shutting-down pool
    /// refuses with `ShuttingDown`; an actor that has a thread, or a pool whose
    /// threads are all taken, refuses with `ConfigError`; otherwise the answer is
    /// the thread's name and the configuration to keep (`config`, or the default).
    pub fn plan_schedule(&self, path: &str, config: Option<ThreadActorConfig>) -> (r: Result<ThreadPlan, SystemError>)
        requires
            self.wf(),
        ensures
            self.shutting_down() ==> (r matches Err(SystemError::ShuttingDown)),
            !self.shutting_down() && self.threads().contains_key(path@) ==>
                (r matches Err(SystemError::ConfigError(t)) && t@ == already_scheduled_text(path@)),
            !self.shutting_down() && !self.threads().contains_key(path@) && self.threads().len() >= self.limit() ==>
                (r matches Err(SystemError::ConfigError(t)) && t@ == pool_full_text(self.limit())),
            !self.shutting_down() && !self.threads().contains_key(path@) && self.threads().len() < self.limit() ==> {
                &&& r is Ok
                &&& r->Ok_0.thread_name@ == thread_name_of(path@)
                &&& config is Some ==> r->Ok_0.config == config.unwrap()
                &&& config is None ==> r->Ok_0.config.scheduling_mode is None && r->Ok_0.config.mailbox_capacity is None
                    && r->Ok_0.config.supervisor_strategy is None && r->Ok_0.config.ask_timeout is None
                    && r->Ok_0.config.backpressure_strategy is None
            },
    {
        if self.is_shutting_down {
            return Err(SystemError::ShuttingDown);
        }
        if self.threads.contains(path) {
            return Err(SystemError::ConfigError(join3("Actor '", path, "' already has a dedicated thread")));
        }
        if self.threads.len() >= self.max_threads {
            let n = decimal_string(self.max_threads);
            return Err(SystemError::ConfigError(join3("Maximum number of dedicated threads (", n.as_str(), ") reached")));
        }
        let thread_config = match config {
            Some(c) => c,
            None => ThreadActorConfig::default(),
        };
        let dashed = slashes_to_dashes(path);
        Ok(ThreadPlan { thread_name: join2("dedicated-actor-", dashed.as_str()), config: thread_config })
    }

    /// Records that the actor at `path` now owns a thread, once its owner spawned it
    /// following `plan_schedule`.
    pub fn record_thread(&mut self, path: String, config: ThreadActorConfig)
        requires
            old(self).wf(),
            !old(self).shutting_down(),
            !old(self).threads().contains_key(path@),
            old(self).threads().len() < old(self).limit(),
        ensures
            final(self).wf(),
            final(self).threads() == old(self).threads().insert(path@, config),
            final(self).shutting_down() == old(self).shutting_down(),
            final(self).limit() == old(self).limit(),
    {
        self.threads.insert(path, config);
        proof {
            old(self).threads.lemma_paths();
            lemma_insert_new_len(old(self).threads@, path@, config);
        }
    }

    /// Schedules the actor at `path` on a thread of its own: decides as
    /// `plan_schedule` does and, when allowed, records the thread at once. The
    /// owner then starts the thread as the answer describes, and reports a
    /// thread that could not start with `thread_spawn_failed`.
    pub fn schedule(&mut self, path: &str, config: Option<ThreadActorConfig>) -> (r: Result<ThreadPlan, SystemError>)
        requires
            old(self).wf(),
        ensures
            final(self).wf(),
            final(self).shutting_down() == old(self).shutting_down(),
            final(self).limit() == old(self).limit(),
            old(self).shutting_down() ==> (r matches Err(SystemError::ShuttingDown)),
            !old(self).shutting_down() && old(self).threads().contains_key(path@) ==>
                (r matches Err(SystemError::ConfigError(t)) && t@ == already_scheduled_text(path@)),
            !old(self).shutting_down() && !old(self).threads().contains_key(path@) && old(self).threads().len() >= old(self).limit() ==>
                (r matches Err(SystemError::ConfigError(t)) && t@ == pool_full_text(old(self).limit())),
            r is Err ==> final(self).threads() == old(self).threads(),
            !old(self).shutting_down() && !old(self).threads().contains_key(path@) && old(self).threads().len() < old(self).limit() ==> {
                &&& r is Ok
                &&& r->Ok_0.thread_name@ == thread_name_of(path@)
                &&& config is Some ==> r->Ok_0.config == config.unwrap()
                &&& final(self).threads() == old(self).threads().insert(path@, r->Ok_0.config)
            },
    {
        match self.plan_schedule(path, config) {
            Ok(plan) => {
                self.record_thread(String::from_str(path), plan.config);
                Ok(plan)
            },
            Err(e) => Err(e),
        }
    }

    /// The owner could not spawn the thread recorded for the actor at `path`
    /// (for `reason`): the record is dropped and the answer is the error the
    /// scheduling fails with.
    pub fn thread_spawn_failed(&mut self, path: &str, reason: &str) -> (e: SystemError)
        requires
            old(self).wf(),
        ensures
            final(self).wf(),
            final(self).threads() == old(self).threads().remove(path@),
            final(self).shutting_down() == old(self).shutting_down(),
            final(self).limit() == old(self).limit(),
            e matches SystemError::Other(a) && anyhow_display(a) == spawn_failure_text(reason@),
    {
        let _ = self.threads.remove(path);
        proof {
            old(self).threads.lemma_paths();
            if old(self).threads@.contains_key(path@) {
                lemma_remove_len(old(self).threads@, path@);
            } else {
                assert(self.threads@ =~= old(self).threads@);
            }
        }
        SystemError::Other(anyhow_msg(join2("Failed to spawn dedicated thread: ", reason)))
    }

    /// Takes the thread away from the actor at `path`. An unknown actor gives
    /// `ActorNotFound`; otherwise the owner signals the thread to stop and, when
    /// `wait` is set, waits for it at most the answered number of milliseconds
    /// (`timeout_ms`, or 5000).
    pub fn deschedule(&mut self, path: &str, wait: bool, timeout_ms: Option<u64>) -> (r: Result<Option<u64>, SystemError>)
        requires
            old(self).wf(),
        ensures
            final(self).wf(),
            final(self).threads() == old(self).threads().remove(path@),
            final(self).shutting_down() == old(self).shutting_down(),
            final(self).limit() == old(self).limit(),
            !old(self).threads().contains_key(path@) ==> (r matches Err(SystemError::ActorNotFound(p)) && p@ == path@),
            old(self).threads().contains_key(path@) && !wait ==> r == Ok::<Option<u64>, SystemError>(None),
            old(self).threads().contains_key(path@) && wait ==> r == Ok::<Option<u64>, SystemError>(Some(
                match timeout_ms { Some(t) => t, None => DEFAULT_JOIN_TIMEOUT_MILLIS },
            )),
    {
        let found = self.threads.remove(path);
        proof {
            old(self).threads.lemma_paths();
            if old(self).threads@.contains_key(path@) {
                lemma_remove_len(old(self).threads@, path@);
            } else {
                assert(self.threads@ =~= old(self).threads@);
            }
        }
        if !found {
            return Err(SystemError::ActorNotFound(String::from_str(path)));
        }
        if wait {
            Ok(Some(match timeout_ms {
                Some(t) => t,
                None => DEFAULT_JOIN_TIMEOUT_MILLIS,
            }))
        } else {
            Ok(None)
        }
    }

    /// Starts shutting down: the pool refuses further actors and gives up every
    /// thread; the answer lists their actors, whose threads the owner stops and joins.
    pub fn shutdown(&mut self) -> (r: Vec<String>)
        requires
            old(self).wf(),
        ensures
            final(self).wf(),
            final(self).shutting_down(),
            final(self).threads() == Map::<Seq<char>, ThreadActorConfig>::empty(),
            final(self).limit() == old(self).limit(),
            views(r@).to_set() == old(self).threads().dom(),
            views(r@).no_duplicates(),
    {
        self.is_shutting_down = true;
        let paths = self.threads.path_list();
        proof {
            self.threads.lemma_paths();
        }
        self.threads = PathRegistry::new();
        paths
    }

    /// The error reported when the threads did not finish within `timeout_ms`.
    pub fn shutdown_timeout_error(timeout_ms: u64) -> (e: SystemError)
        ensures
            e matches SystemError::ShutdownError(t) && t@ == shutdown_timeout_text(timeout_ms as nat),
    {
        let n = decimal_string_u64(timeout_ms);
        SystemError::ShutdownError(join3("Timeout after ", n.as_str(), "ms"))
    }

    /// The number of threads in use.
    pub fn thread_count(&self) -> (n: usize)
        ensures
            n == self.threads().len(),
    {
        self.threads.len()
    }

    /// The most threads the pool allows.
    pub fn max_threads(&self) -> (n: usize)
        ensures
            n == self.limit(),
    {
        self.max_threads
    }

    /// Whether the actor at `path` owns a thread.
    pub fn has_dedicated_thread(&self, path: &str) -> (b: bool)
        ensures
            b == self.threads().contains_key(path@),
    {
        self.threads.contains(path)
    }
}

/// What the loop of a dedicated thread does next.
#[derive(Debug, Clone, Copy, PartialEq, Eq, Structural)]
pub enum ActorLoopStep {
    /// The loop ends; the mailbox was closed.
    Exit,
    /// Hand the message with this id to the actor.
    Handle(u64),
    /// The mailbox is empty: wait a little, then look again.
    Idle,
}

/// One turn of the loop of an actor's dedicated thread. When the thread was
/// asked to stop or the system is shutting down, the loop ends and the
/// mailbox is closed (its queued messages dropped); otherwise the oldest
/// message is taken for the actor, or the loop idles on an empty mailbox.
pub fn actor_loop_step<M: Mailbox>(mailbox: &mut M, shutdown_requested: bool, system_shutting_down: bool) -> (r: ActorLoopStep)
    requires
        old(mailbox).well_formed(),
    ensures
        final(mailbox).well_formed(),
        final(mailbox).model().capacity == old(mailbox).model().capacity,
        final(mailbox).model().path == old(mailbox).model().path,
        shutdown_requested || system_shutting_down ==> {
            &&& r == ActorLoopStep::Exit
            &&& final(mailbox).model().closed
            &&& final(mailbox).model().queue == Seq::<u64>::empty()
        },
        !(shutdown_requested || system_shutting_down) ==> {
            &&& final(mailbox).model().closed == old(mailbox).model().closed
            &&& old(mailbox).model().queue.len() > 0 ==> r == ActorLoopStep::Handle(old(mailbox).model().queue[0])
                && final(mailbox).model().queue == old(mailbox).model().queue.drop_first()
            &&& old(mailbox).model().queue.len() == 0 ==> r == ActorLoopStep::Idle
                && final(mailbox).model().queue == old(mailbox).model().queue
        },
{
    if shutdown_requested || system_shutting_down {
        mailbox.shut();
        return ActorLoopStep::Exit;
    }
    match mailbox.pop_id() {
        Some(id) => ActorLoopStep::Handle(id),
        None => ActorLoopStep::Idle,
    }
}

/// A path not yet registered adds one to a finite map's size.
proof fn lemma_insert_new_len<V>(m: Map<Seq<char>, V>, k: Seq<char>, v: V)
    requires
        m.dom().finite(),
        !m.contains_key(k),
    ensures
        m.insert(k, v).len() == m.len() + 1,
{
    assert(m.insert(k, v).dom() =~= m.dom().insert(k));
}

/// Removing a registered path takes one from a finite map's size.
proof fn lemma_remove_len<V>(m: Map<Seq<char>, V>, k: Seq<char>)
    requires
        m.dom().finite(),
        m.contains_key(k),
    ensures
        m.remove(k).len() == m.len() - 1,
{
    assert(m.remove(k).dom() =~= m.dom().remove(k));
}

/// Whatever sequence of scheduling decisions is taken, the pool never has more
/// threads than it allows.
pub proof fn law_thread_limit(p: &DedicatedThreadPool)
    requires
        p.wf(),
    ensures
        p.threads().len() <= p.limit(),
{
}

} // verus!
