//! The lifecycle of one actor: its state, its watchers, and how it answers each
//! kind of message.
//!
//! The actor's own behaviour (initialisation, message handling, the hook run
//! before it stops) is asynchronous code of its author; `ThreadActor` decides
//! what happens around it and tells its owner, by a `Step`, which of those
//! hooks to run.

use vstd::prelude::*;
use crate::thread::context::ThreadContext;
use crate::thread::envelope::ControlMessage;
use crate::thread::registry::{views, PathRegistry};

verus! {

/// The lifecycle state of an actor.
#[derive(Debug, Clone, Copy, PartialEq, Eq, Structural)]
pub enum ActorState {
    /// Created, not yet started.
    Starting,
    /// Handling messages.
    Running,
    /// Running its stop hook.
    Stopping,
    /// Stopped for good.
    Stopped,
}

/// An error of an actor, with its reason.
#[derive(Debug, Clone)]
pub enum ActorError {
    /// The actor could not be initialised.
    InitializationError(String),
    /// A message could not be handled.
    MessageHandlingError(String),
    /// A message could not be sent.
    MessageSendError(String),
    /// The actor panicked.
    Panic(String),
    /// Any other failure.
    Other(String),
}

/// What an actor is sent.
#[derive(Debug, Clone)]
pub enum ActorMessage {
    /// A control message of the system.
    Control(ControlMessage),
    /// The actor at this path asks to be told when this actor stops.
    Watch(String),
    /// The actor at this path no longer watches this actor.
    Unwatch(String),
    /// A request whose sender waits for a reply; the id of its payload.
    Ask(u64),
    /// An ordinary message; the id of its payload.
    User(u64),
}

/// An answer the actor gives without running any of its author's code.
#[derive(Debug, Clone, Copy, PartialEq, Eq, Structural)]
pub enum Reply {
    /// The empty answer.
    Unit,
    /// The actor's state (the answer to a health check).
    State(ActorState),
}

/// What the owner of a `ThreadActor` does with a message.
#[derive(Debug, Clone)]
pub enum Step {
    /// Answer `Ok` with this reply.
    Done(Reply),
    /// Answer with this error.
    Fail(ActorError),
    /// Run the actor's stop hook, then call `finish_shutdown`.
    RunStopHook,
    /// Run the actor's hook for the terminated child at this path, then answer `Ok(Reply::Unit)`.
    ChildTerminated(String),
    /// Hand the payload to the actor's message handler and answer with its result.
    Deliver(u64),
    /// Hand the payload to the actor's message handler and send its result back to the asker.
    DeliverAsk(u64),
}

/// The reason given when an actor is initialised twice.
pub open spec fn already_initialized_text() -> Seq<char> {
    "Actor is already initialized"@
}

/// The reason given when a message reaches an actor that is not running.
pub open spec fn not_running_text() -> Seq<char> {
    "Actor is not running"@
}

/// The reason given when a failed child is not among the actor's children.
pub open spec fn child_not_found_text() -> Seq<char> {
    "Child actor reference not found"@
}

/// The state an actor is in after a message, given its state before.
pub open spec fn state_after(state: ActorState, msg: ActorMessage) -> ActorState {
    match msg {
        ActorMessage::Control(ControlMessage::Start) => if state == ActorState::Starting { ActorState::Running } else { state },
        ActorMessage::Control(ControlMessage::Stop) | ActorMessage::Control(ControlMessage::SystemShutdown) =>
            if state == ActorState::Stopped { state } else { ActorState::Stopping },
        _ => state,
    }
}

/// Whether `r` is the step an actor in `state` takes for `msg`; `has_child`
/// tells whether a failed child belongs to the actor.
pub open spec fn takes_step(r: Step, state: ActorState, msg: ActorMessage, has_child: bool) -> bool {
    match msg {
        ActorMessage::Control(c) => match c {
            ControlMessage::Start => r == Step::Done(Reply::Unit),
            ControlMessage::Stop | ControlMessage::SystemShutdown =>
                if state == ActorState::Stopped { r == Step::Done(Reply::Unit) } else { r == Step::RunStopHook },
            ControlMessage::ChildFailure { path, reason } =>
                if has_child {
                    r == Step::ChildTerminated(path)
                } else {
                    r matches Step::Fail(ActorError::Other(t)) && t@ == child_not_found_text()
                },
            ControlMessage::HealthCheck => r == Step::Done(Reply::State(state)),
        },
        ActorMessage::Watch(_) | ActorMessage::Unwatch(_) => r == Step::Done(Reply::Unit),
        ActorMessage::Ask(id) =>
            if state == ActorState::Running {
                r == Step::DeliverAsk(id)
            } else {
                r matches Step::Fail(ActorError::Other(t)) && t@ == not_running_text()
            },
        ActorMessage::User(id) =>
            if state == ActorState::Running {
                r == Step::Deliver(id)
            } else {
                r matches Step::Fail(ActorError::Other(t)) && t@ == not_running_text()
            },
    }
}

/// An actor's lifecycle: its state, its path and the actors watching it.
pub struct ThreadActor {
    state: ActorState,
    path: String,
    watchers: Option<PathRegistry<()>>,
}

impl ThreadActor {
    /// The actor's state.
    pub closed spec fn spec_state(&self) -> ActorState {
        self.state
    }

    /// The actor's path.
    pub closed spec fn spec_path(&self) -> Seq<char> {
        self.path@
    }

    /// The paths of the actors watching this one; `None` until one first watches.
    pub closed spec fn spec_watchers(&self) -> Option<Set<Seq<char>>> {
        match self.watchers {
            Some(w) => Some(w@.dom()),
            None => None,
        }
    }

    /// The actor's consistency.
    pub closed spec fn wf(&self) -> bool {
        match self.watchers {
            Some(w) => w.wf(),
            None => true,
        }
    }

    /// A new actor at `path`, in state `Starting`, watched by nobody.
    pub fn new(path: String) -> (a: Self)
        ensures
            a.wf(),
            a.spec_state() == ActorState::Starting,
            a.spec_path() == path@,
            a.spec_watchers() is None,
    {
        ThreadActor { state: ActorState::Starting, path, watchers: None }
    }

    /// The actor's state.
    pub fn state(&self) -> (s: ActorState)
        ensures
            s == self.spec_state(),
    {
        self.state
    }

    /// The actor's path.
    pub fn path(&self) -> (p: &String)
        ensures
            p@ == self.spec_path(),
    {
        &self.path
    }

    /// Decides whether the actor may be initialised: only an actor in state
    /// `Starting`; any other is refused with "Actor is already initialized".
    /// On `Ok` the owner runs the actor's initialisation and, if it fails,
    /// calls `initialization_failed`.
    pub fn initialize(&self) -> (r: Result<(), ActorError>)
        ensures
            self.spec_state() == ActorState::Starting ==> r is Ok,
            self.spec_state() != ActorState::Starting ==> (r matches Err(ActorError::Other(t)) && t@ == already_initialized_text()),
    {
        if self.state != ActorState::Starting {
            return Err(ActorError::Other(String::from_str("Actor is already initialized")));
        }
        Ok(())
    }

    /// The actor's initialisation failed: it is stopped.
    pub fn initialization_failed(&mut self)
        ensures
            final(self).spec_state() == ActorState::Stopped,
            final(self).spec_path() == old(self).spec_path(),
            final(self).spec_watchers() == old(self).spec_watchers(),
            final(self).wf() == old(self).wf(),
    {
        self.state = ActorState::Stopped;
    }

    /// Adds the actor at `watcher_path` to the watchers.
    pub fn add_watcher(&mut self, watcher_path: String)
        requires
            old(self).wf(),
        ensures
            final(self).wf(),
            final(self).spec_watchers() == Some(
                match old(self).spec_watchers() {
                    Some(w) => w,
                    None => Set::<Seq<char>>::empty(),
                }.insert(watcher_path@),
            ),
            final(self).spec_state() == old(self).spec_state(),
            final(self).spec_path() == old(self).spec_path(),
    {
        let mut set = match self.watchers.take() {
            Some(w) => w,
            None => PathRegistry::new(),
        };
        set.insert(watcher_path, ());
        self.watchers = Some(set);
    }

    /// Removes the actor at `watcher_path` from the watchers, if there are any.
    pub fn remove_watcher(&mut self, watcher_path: &str)
        requires
            old(self).wf(),
        ensures
            final(self).wf(),
            final(self).spec_watchers() == match old(self).spec_watchers() {
                Some(w) => Some(w.remove(watcher_path@)),
                None => None,
            },
            final(self).spec_state() == old(self).spec_state(),
            final(self).spec_path() == old(self).spec_path(),
    {
        match self.watchers.take() {
            Some(mut w) => {
                w.remove(watcher_path);
                self.watchers = Some(w);
            },
            None => {},
        }
    }

    /// The paths of the watchers; none for an actor that nobody watched.
    pub fn watchers(&self) -> (r: Vec<String>)
        requires
            self.wf(),
        ensures
            views(r@).to_set() == match self.spec_watchers() {
                Some(w) => w,
                None => Set::<Seq<char>>::empty(),
            },
            views(r@).no_duplicates(),
    {
        match &self.watchers {
            Some(w) => {
                proof {
                    w.lemma_paths();
                }
                w.path_list()
            },
            None => {
                let r: Vec<String> = Vec::new();
                assert(views(r@).to_set() =~= Set::<Seq<char>>::empty());
                r
            },
        }
    }

    /// Takes one message: watch requests change the watchers, control messages
    /// move the lifecycle, and the actor's own messages are handed on only while
    /// it is running. The answer tells the owner what to do next (see
    /// `takes_step` and `state_after`).
    pub fn process_message(&mut self, msg: ActorMessage, ctx: &ThreadContext) -> (r: Step)
        requires
            old(self).wf(),
            ctx.wf(),
        ensures
            final(self).wf(),
            takes_step(r, old(self).spec_state(), msg, match msg {
                ActorMessage::Control(ControlMessage::ChildFailure { path, reason }) => ctx.children().contains_key(path@),
                _ => false,
            }),
            final(self).spec_state() == state_after(old(self).spec_state(), msg),
            final(self).spec_path() == old(self).spec_path(),
            final(self).spec_watchers() == match msg {
                ActorMessage::Watch(p) => Some(
                    match old(self).spec_watchers() {
                        Some(w) => w,
                        None => Set::<Seq<char>>::empty(),
                    }.insert(p@),
                ),
                ActorMessage::Unwatch(p) => match old(self).spec_watchers() {
                    Some(w) => Some(w.remove(p@)),
                    None => None,
                },
                _ => old(self).spec_watchers(),
            },
    {
        match msg {
            ActorMessage::Control(c) => self.handle_control_message(c, ctx),
            ActorMessage::Watch(p) => {
                self.add_watcher(p);
                Step::Done(Reply::Unit)
            },
            ActorMessage::Unwatch(p) => {
                self.remove_watcher(p.as_str());
                Step::Done(Reply::Unit)
            },
            ActorMessage::Ask(id) => {
                if self.state != ActorState::Running {
                    return Step::Fail(ActorError::Other(String::from_str("Actor is not running")));
                }
                Step::DeliverAsk(id)
            },
            ActorMessage::User(id) => {
                if self.state != ActorState::Running {
                    return Step::Fail(ActorError::Other(String::from_str("Actor is not running")));
                }
                Step::Deliver(id)
            },
        }
    }

    /// Takes a control message (see `process_message`).
    fn handle_control_message(&mut self, c: ControlMessage, ctx: &ThreadContext) -> (r: Step)
        requires
            old(self).wf(),
            ctx.wf(),
        ensures
            final(self).wf(),
            takes_step(r, old(self).spec_state(), ActorMessage::Control(c), match c {
                ControlMessage::ChildFailure { path, reason } => ctx.children().contains_key(path@),
                _ => false,
            }),
            final(self).spec_state() == state_after(old(self).spec_state(), ActorMessage::Control(c)),
            final(self).spec_path() == old(self).spec_path(),
            final(self).spec_watchers() == old(self).spec_watchers(),
    {
        match c {
            ControlMessage::Start => {
                if self.state == ActorState::Starting {
                    self.state = ActorState::Running;
                }
                Step::Done(Reply::Unit)
            },
            ControlMessage::Stop => self.shutdown(),
            ControlMessage::SystemShutdown => self.shutdown(),
            ControlMessage::ChildFailure { path, reason } => {
                if ctx.has_child(path.as_str()) {
                    Step::ChildTerminated(path)
                } else {
                    Step::Fail(ActorError::Other(String::from_str("Child actor reference not found")))
                }
            },
            ControlMessage::HealthCheck => Step::Done(Reply::State(self.state)),
        }
    }

    /// Starts stopping the actor: a stopped actor has nothing to do
    /// (`Done(Unit)`); any other moves to `Stopping` and its owner runs the
    /// actor's stop hook, then calls `finish_shutdown`.
    pub fn shutdown(&mut self) -> (r: Step)
        ensures
            old(self).spec_state() == ActorState::Stopped ==> r == Step::Done(Reply::Unit) && final(self).spec_state() == ActorState::Stopped,
            old(self).spec_state() != ActorState::Stopped ==> r == Step::RunStopHook && final(self).spec_state() == ActorState::Stopping,
            final(self).spec_path() == old(self).spec_path(),
            final(self).spec_watchers() == old(self).spec_watchers(),
            final(self).wf() == old(self).wf(),
    {
        if self.state == ActorState::Stopped {
            return Step::Done(Reply::Unit);
        }
        self.state = ActorState::Stopping;
        Step::RunStopHook
    }

    /// The stop hook has run (whatever its result): the actor is stopped, and
    /// the answer lists the watchers to tell of its termination.
    pub fn finish_shutdown(&mut self) -> (r: Vec<String>)
        requires
            old(self).wf(),
        ensures
            final(self).wf(),
            final(self).spec_state() == ActorState::Stopped,
            final(self).spec_path() == old(self).spec_path(),
            final(self).spec_watchers() == old(self).spec_watchers(),
            views(r@).to_set() == match old(self).spec_watchers() {
                Some(w) => w,
                None => Set::<Seq<char>>::empty(),
            },
            views(r@).no_duplicates(),
    {
        self.state = ActorState::Stopped;
        match &self.watchers {
            Some(w) => {
                proof {
                    w.lemma_paths();
                }
                w.path_list()
            },
            None => {
                let r: Vec<String> = Vec::new();
                assert(views(r@).to_set() =~= Set::<Seq<char>>::empty());
                r
            },
        }
    }
}

/// An actor stops only through `Stopping`, and a stopped actor stays stopped
/// whatever it is sent.
pub proof fn law_stopped_is_final(msg: ActorMessage)
    ensures
        state_after(ActorState::Stopped, msg) == ActorState::Stopped,
{
}

/// A `Start` moves a new actor to `Running`, and no message other than `Start`
/// does so.
pub proof fn law_only_start_runs(state: ActorState, msg: ActorMessage)
    requires
        state != ActorState::Running,
        state_after(state, msg) == ActorState::Running,
    ensures
        state == ActorState::Starting,
        msg matches ActorMessage::Control(ControlMessage::Start),
{
}

/// A system shutdown stops an actor exactly as `Stop` does: an actor that is
/// not stopped yet moves to `Stopping` and its owner runs its stop hook; a
/// stopped one stays stopped and answers `Done(Unit)`.
pub proof fn law_system_shutdown_stops_like_stop(state: ActorState, r: Step, has_child: bool)
    ensures
        state != ActorState::Stopped ==> {
            &&& state_after(state, ActorMessage::Control(ControlMessage::SystemShutdown)) == ActorState::Stopping
            &&& takes_step(r, state, ActorMessage::Control(ControlMessage::SystemShutdown), has_child) <==> r == Step::RunStopHook
        },
        state == ActorState::Stopped ==> {
            &&& state_after(state, ActorMessage::Control(ControlMessage::SystemShutdown)) == ActorState::Stopped
            &&& takes_step(r, state, ActorMessage::Control(ControlMessage::SystemShutdown), has_child) <==> r == Step::Done(Reply::Unit)
        },
        state_after(state, ActorMessage::Control(ControlMessage::SystemShutdown))
            == state_after(state, ActorMessage::Control(ControlMessage::Stop)),
        takes_step(r, state, ActorMessage::Control(ControlMessage::SystemShutdown), has_child)
            <==> takes_step(r, state, ActorMessage::Control(ControlMessage::Stop), has_child),
{
}

/// Only a running actor handles its own messages: a user message or an ask is
/// handed on only in `Running`, and in every other state it is refused with
/// "Actor is not running". Neither changes the actor's state.
pub proof fn law_only_running_actor_handles_messages(state: ActorState, id: u64, r: Step, has_child: bool)
    ensures
        takes_step(r, state, ActorMessage::User(id), has_child) && r is Deliver ==> state == ActorState::Running,
        takes_step(r, state, ActorMessage::Ask(id), has_child) && r is DeliverAsk ==> state == ActorState::Running,
        state == ActorState::Running ==> {
            &&& takes_step(r, state, ActorMessage::User(id), has_child) <==> r == Step::Deliver(id)
            &&& takes_step(r, state, ActorMessage::Ask(id), has_child) <==> r == Step::DeliverAsk(id)
        },
        state != ActorState::Running && takes_step(r, state, ActorMessage::User(id), has_child) ==> (
            r matches Step::Fail(ActorError::Other(t)) && t@ == "Actor is not running"@),
        state != ActorState::Running && takes_step(r, state, ActorMessage::Ask(id), has_child) ==> (
            r matches Step::Fail(ActorError::Other(t)) && t@ == "Actor is not running"@),
        state_after(state, ActorMessage::User(id)) == state,
        state_after(state, ActorMessage::Ask(id)) == state,
{
}

} // verus!
