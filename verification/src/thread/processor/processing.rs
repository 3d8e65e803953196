//! The lifecycle status and counters of an actor processor.

use vstd::prelude::*;
use crate::thread::actor::{already_initialized_text, takes_step, state_after, ActorError, ActorMessage, ActorState, Step, ThreadActor};
use crate::thread::config::ThreadActorConfig;
use crate::thread::context::ThreadContext;
use crate::thread::envelope::ControlMessage;
use crate::thread::error::SystemError;
use crate::thread::mailbox::{pop_result, Mailbox, MailboxModel};
use crate::thread::text::{join2, join3, join4};

verus! {

/// Processor status.
#[derive(Debug, Clone, Copy, PartialEq, Eq, Structural)]
pub enum ProcessorStatus {
    /// Processor is initializing.
    Initializing,
    /// Processor is running normally.
    Running,
    /// Processor is paused.
    Paused,
    /// Processor is stopping.
    Stopping,
    /// Processor is stopped.
    Stopped,
    /// Processor has failed.
    Failed,
}

/// The numeric code a status is stored as.
pub open spec fn processor_status_code(s: ProcessorStatus) -> nat {
    match s {
        ProcessorStatus::Initializing => 0,
        ProcessorStatus::Running => 1,
        ProcessorStatus::Paused => 2,
        ProcessorStatus::Stopping => 3,
        ProcessorStatus::Stopped => 4,
        ProcessorStatus::Failed => 5,
    }
}

impl ProcessorStatus {
    /// The numeric code of the status (0 to 5, in declaration order).
    pub fn code(self) -> (c: usize)
        ensures
            c == processor_status_code(self),
    {
        match self {
            ProcessorStatus::Initializing => 0,
            ProcessorStatus::Running => 1,
            ProcessorStatus::Paused => 2,
            ProcessorStatus::Stopping => 3,
            ProcessorStatus::Stopped => 4,
            ProcessorStatus::Failed => 5,
        }
    }

    /// The status with the given code; an unknown code reads as `Failed`.
    pub fn from_code(c: usize) -> (s: Self)
        ensures
            c <= 5 ==> processor_status_code(s) == c,
            c > 5 ==> s == ProcessorStatus::Failed,
    {
        match c {
            0 => ProcessorStatus::Initializing,
            1 => ProcessorStatus::Running,
            2 => ProcessorStatus::Paused,
            3 => ProcessorStatus::Stopping,
            4 => ProcessorStatus::Stopped,
            _ => ProcessorStatus::Failed,
        }
    }
}

/// Reading back the code of a status gives the status.
pub proof fn law_processor_status_code_round_trip(s: ProcessorStatus)
    ensures
        processor_status_code(s) <= 5,
        forall|t: ProcessorStatus| processor_status_code(t) == processor_status_code(s) ==> t == s,
{
}

/// Counters of a processor's work.
#[derive(Debug, Clone, Copy)]
pub struct WorkerStats {
    /// Number of messages processed.
    pub messages_processed: usize,
    /// Number of errors encountered.
    pub errors_encountered: usize,
    /// Time spent processing messages (nanoseconds).
    pub processing_time_ns: usize,
}

impl WorkerStats {
    /// All counters at zero.
    pub fn new() -> (s: Self)
        ensures
            s.messages_processed == 0,
            s.errors_encountered == 0,
            s.processing_time_ns == 0,
    {
        WorkerStats { messages_processed: 0, errors_encountered: 0, processing_time_ns: 0 }
    }
}

/// A counter after one more event; it wraps around at the top as the
/// processor's atomic counters do.
pub open spec fn bumped(n: usize) -> usize {
    if n == usize::MAX { 0 } else { (n + 1) as usize }
}

fn bump(n: usize) -> (r: usize)
    ensures
        r == bumped(n),
{
    if n == usize::MAX { 0 } else { n + 1 }
}

/// The name of a processor status, as it is shown in messages.
pub open spec fn status_name(s: ProcessorStatus) -> Seq<char> {
    match s {
        ProcessorStatus::Initializing => "Initializing"@,
        ProcessorStatus::Running => "Running"@,
        ProcessorStatus::Paused => "Paused"@,
        ProcessorStatus::Stopping => "Stopping"@,
        ProcessorStatus::Stopped => "Stopped"@,
        ProcessorStatus::Failed => "Failed"@,
    }
}

fn status_name_string(s: ProcessorStatus) -> (r: String)
    ensures
        r@ == status_name(s),
{
    match s {
        ProcessorStatus::Initializing => String::from_str("Initializing"),
        ProcessorStatus::Running => String::from_str("Running"),
        ProcessorStatus::Paused => String::from_str("Paused"),
        ProcessorStatus::Stopping => String::from_str("Stopping"),
        ProcessorStatus::Stopped => String::from_str("Stopped"),
        ProcessorStatus::Failed => String::from_str("Failed"),
    }
}

/// The reason an actor error carries.
pub open spec fn reason_of(e: ActorError) -> Seq<char> {
    match e {
        ActorError::InitializationError(r) => r@,
        ActorError::MessageHandlingError(r) => r@,
        ActorError::MessageSendError(r) => r@,
        ActorError::Panic(r) => r@,
        ActorError::Other(r) => r@,
    }
}

/// The reason an actor error carries.
pub fn reason(e: &ActorError) -> (r: &String)
    ensures
        r@ == reason_of(*e),
{
    match e {
        ActorError::InitializationError(r) => r,
        ActorError::MessageHandlingError(r) => r,
        ActorError::MessageSendError(r) => r,
        ActorError::Panic(r) => r,
        ActorError::Other(r) => r,
    }
}

/// The text of the error when a lifecycle step (`what`: "initialize", "start"
/// or "stop") of the actor at `path` failed for `reason`.
pub open spec fn lifecycle_failure_text(what: Seq<char>, path: Seq<char>, reason: Seq<char>) -> Seq<char> {
    "Failed to "@ + what + " actor at "@ + path + ": "@ + reason
}

/// The text of the error when a message reaches a processor that is not running.
pub open spec fn not_running_text(path: Seq<char>, status: ProcessorStatus) -> Seq<char> {
    "Actor at "@ + path + " is not running, current status: "@ + status_name(status)
}

/// The text of the error when an actor panicked while handling a message.
pub open spec fn panic_text(path: Seq<char>, detail: Seq<char>) -> Seq<char> {
    "Panic in actor "@ + path + ": "@ + detail
}

/// How handling one message ended.
#[derive(Debug, Clone)]
pub enum MessageOutcome {
    /// The message was handled.
    Handled,
    /// Handling the message failed with this error.
    Failed(ActorError),
    /// The actor panicked; the panic's text.
    Panicked(String),
}

/// A counter after `k` more events (wrapping around at the top).
pub open spec fn bumped_times(n: usize, k: nat) -> usize
    decreases k,
{
    if k == 0 { n } else { bumped(bumped_times(n, (k - 1) as nat)) }
}

/// How many of `outs` are failures or panics.
pub open spec fn count_failed(outs: Seq<MessageOutcome>) -> nat
    decreases outs.len(),
{
    if outs.len() == 0 {
        0
    } else {
        count_failed(outs.drop_last()) + if outs.last() is Handled { 0nat } else { 1nat }
    }
}

/// Whether `outs` are the outcomes of a batch of at most `max_messages`
/// messages taken from `queue` and handed, oldest first, to `handler`: one
/// outcome per message taken, only the last of them possibly a panic, and the
/// batch ending only when full, when the queue ran dry, or at a panic.
pub open spec fn batch_ran<F: Fn(u64) -> MessageOutcome>(handler: F, queue: Seq<u64>, max_messages: usize, outs: Seq<MessageOutcome>) -> bool {
    &&& outs.len() <= max_messages
    &&& outs.len() <= queue.len()
    &&& forall|i: int| 0 <= i < outs.len() ==> call_ensures(handler, (queue[i],), #[trigger] outs[i])
    &&& forall|i: int| 0 <= i < outs.len() - 1 ==> !(#[trigger] outs[i] is Panicked)
    &&& outs.len() == max_messages || outs.len() == queue.len() || (outs.len() > 0 && outs.last() is Panicked)
}

/// The progress of one batch of messages.
#[derive(Debug, Clone, Copy)]
pub struct BatchRun {
    /// The most messages the batch handles.
    pub max_messages: usize,
    /// The messages handled so far.
    pub processed: usize,
    /// Whether handling one of them failed.
    pub had_error: bool,
    /// Whether the batch ended early (an actor panicked, or the mailbox ran dry).
    pub ended: bool,
}

/// Runs one actor: its lifecycle, its context, its mailbox, its status and
/// counters. The actor's own hooks are run by the processor's owner when a
/// step asks for them.
pub struct ActorProcessor<M> {
    actor: ThreadActor,
    context: ThreadContext,
    mailbox: M,
    path: String,
    config: ThreadActorConfig,
    status: ProcessorStatus,
    stats: WorkerStats,
}

impl<M: Mailbox> ActorProcessor<M> {
    /// The actor's lifecycle.
    pub closed spec fn spec_actor(&self) -> ThreadActor {
        self.actor
    }

    /// The actor's context.
    pub closed spec fn spec_context(&self) -> ThreadContext {
        self.context
    }

    /// The actor's mailbox.
    pub closed spec fn spec_mailbox(&self) -> MailboxModel {
        self.mailbox.model()
    }

    /// The actor's path.
    pub closed spec fn spec_path(&self) -> Seq<char> {
        self.path@
    }

    /// The actor's configuration.
    pub closed spec fn spec_config(&self) -> ThreadActorConfig {
        self.config
    }

    /// The processor's status.
    pub closed spec fn spec_status(&self) -> ProcessorStatus {
        self.status
    }

    /// The processor's counters.
    pub closed spec fn spec_stats(&self) -> WorkerStats {
        self.stats
    }

    /// The processor's consistency.
    pub closed spec fn wf(&self) -> bool {
        &&& self.actor.wf()
        &&& self.context.wf()
        &&& self.mailbox.well_formed()
    }

    /// A processor for the actor `actor` at `path`, in status `Initializing`
    /// with all counters at zero.
    pub fn new(actor: ThreadActor, context: ThreadContext, mailbox: M, path: String, config: ThreadActorConfig) -> (p: Self)
        requires
            actor.wf(),
            context.wf(),
            mailbox.well_formed(),
        ensures
            p.wf(),
            p.spec_actor() == actor,
            p.spec_context() == context,
            p.spec_mailbox() == mailbox.model(),
            p.spec_path() == path@,
            p.spec_config() == config,
            p.spec_status() == ProcessorStatus::Initializing,
            p.spec_stats() == (WorkerStats { messages_processed: 0, errors_encountered: 0, processing_time_ns: 0 }),
    {
        ActorProcessor { actor, context, mailbox, path, config, status: ProcessorStatus::Initializing, stats: WorkerStats::new() }
    }

    /// Records a failed lifecycle step: the processor fails and counts one more error.
    fn fail(&mut self, what: &str, e: &ActorError) -> (r: SystemError)
        ensures
            r matches SystemError::ActorCreationError(t) && t@ == lifecycle_failure_text(what@, old(self).spec_path(), reason_of(*e)),
            final(self).spec_status() == ProcessorStatus::Failed,
            final(self).spec_stats() == (WorkerStats { errors_encountered: bumped(old(self).spec_stats().errors_encountered), ..old(self).spec_stats() }),
            final(self).spec_actor() == old(self).spec_actor(),
            final(self).spec_context() == old(self).spec_context(),
            final(self).spec_mailbox() == old(self).spec_mailbox(),
            final(self).mailbox == old(self).mailbox,
            final(self).spec_path() == old(self).spec_path(),
            final(self).spec_config() == old(self).spec_config(),
    {
        self.status = ProcessorStatus::Failed;
        self.stats.errors_encountered = bump(self.stats.errors_encountered);
        let head = join4("Failed to ", what, " actor at ", self.path.as_str());
        SystemError::ActorCreationError(join3(head.as_str(), ": ", reason(e).as_str()))
    }

    /// Asks the actor whether it may be initialised (only once, from
    /// `Starting`). When it refuses, the processor fails, counts one more
    /// error and answers `ActorCreationError`; otherwise the owner runs the
    /// actor's own initialisation and hands its result to `initialize_actor`.
    pub fn check_initialize(&mut self) -> (r: Result<(), SystemError>)
        requires
            old(self).wf(),
        ensures
            final(self).wf(),
            final(self).spec_actor() == old(self).spec_actor(),
            final(self).spec_path() == old(self).spec_path(),
            final(self).spec_config() == old(self).spec_config(),
            final(self).spec_context() == old(self).spec_context(),
            final(self).spec_mailbox() == old(self).spec_mailbox(),
            old(self).spec_actor().spec_state() == ActorState::Starting ==> {
                &&& r is Ok
                &&& final(self).spec_status() == old(self).spec_status()
                &&& final(self).spec_stats() == old(self).spec_stats()
            },
            old(self).spec_actor().spec_state() != ActorState::Starting ==> {
                &&& r matches Err(SystemError::ActorCreationError(t))
                    && t@ == lifecycle_failure_text("initialize"@, old(self).spec_path(), already_initialized_text())
                &&& final(self).spec_status() == ProcessorStatus::Failed
                &&& final(self).spec_stats().errors_encountered == bumped(old(self).spec_stats().errors_encountered)
                &&& final(self).spec_stats().messages_processed == old(self).spec_stats().messages_processed
            },
    {
        match self.actor.initialize() {
            Ok(()) => Ok(()),
            Err(e) => Err(self.fail("initialize", &e)),
        }
    }

    /// Takes the result of the actor's own initialisation. When it failed the
    /// actor is stopped, the processor fails, counts one more error and
    /// answers `ActorCreationError`.
    pub fn initialize_actor(&mut self, init_result: Result<(), ActorError>) -> (r: Result<(), SystemError>)
        requires
            old(self).wf(),
        ensures
            final(self).wf(),
            final(self).spec_path() == old(self).spec_path(),
            final(self).spec_config() == old(self).spec_config(),
            final(self).spec_context() == old(self).spec_context(),
            final(self).spec_mailbox() == old(self).spec_mailbox(),
            final(self).spec_actor().spec_path() == old(self).spec_actor().spec_path(),
            final(self).spec_actor().spec_watchers() == old(self).spec_actor().spec_watchers(),
            init_result is Ok ==> {
                &&& r is Ok
                &&& final(self).spec_status() == old(self).spec_status()
                &&& final(self).spec_stats() == old(self).spec_stats()
                &&& final(self).spec_actor() == old(self).spec_actor()
            },
            init_result matches Err(e) ==> {
                &&& r matches Err(SystemError::ActorCreationError(t)) && t@ == lifecycle_failure_text("initialize"@, old(self).spec_path(), reason_of(e))
                &&& final(self).spec_status() == ProcessorStatus::Failed
                &&& final(self).spec_stats().errors_encountered == bumped(old(self).spec_stats().errors_encountered)
                &&& final(self).spec_stats().messages_processed == old(self).spec_stats().messages_processed
                &&& final(self).spec_actor().spec_state() == ActorState::Stopped
            },
    {
        match init_result {
            Ok(()) => Ok(()),
            Err(e) => {
                self.actor.initialization_failed();
                Err(self.fail("initialize", &e))
            },
        }
    }

    /// Sends `Start` to the actor: it runs (a second `Start` is ignored) and
    /// so does the processor.
    pub fn start_actor(&mut self) -> (r: Result<(), SystemError>)
        requires
            old(self).wf(),
        ensures
            final(self).wf(),
            r is Ok,
            final(self).spec_status() == ProcessorStatus::Running,
            final(self).spec_actor().spec_state() == state_after(old(self).spec_actor().spec_state(), ActorMessage::Control(ControlMessage::Start)),
            final(self).spec_actor().spec_path() == old(self).spec_actor().spec_path(),
            final(self).spec_actor().spec_watchers() == old(self).spec_actor().spec_watchers(),
            final(self).spec_stats() == old(self).spec_stats(),
            final(self).spec_path() == old(self).spec_path(),
            final(self).spec_config() == old(self).spec_config(),
            final(self).spec_context() == old(self).spec_context(),
            final(self).spec_mailbox() == old(self).spec_mailbox(),
    {
        let step = self.actor.process_message(ActorMessage::Control(ControlMessage::Start), &self.context);
        match step {
            Step::Fail(e) => Err(self.fail("start", &e)),
            _ => {
                self.status = ProcessorStatus::Running;
                Ok(())
            },
        }
    }

    /// Sends `Stop` to the actor; the processor is stopping. An actor that is
    /// already stopped needs nothing more (`Some(Ok(()))`, the processor is
    /// stopped); otherwise (`None`) the owner runs the actor's stop hook and
    /// hands its result to `finish_stop`.
    pub fn stop_actor(&mut self) -> (r: Option<Result<(), SystemError>>)
        requires
            old(self).wf(),
        ensures
            final(self).wf(),
            old(self).spec_actor().spec_state() == ActorState::Stopped ==> {
                &&& r == Some(Ok::<(), SystemError>(()))
                &&& final(self).spec_status() == ProcessorStatus::Stopped
            },
            old(self).spec_actor().spec_state() != ActorState::Stopped ==> {
                &&& r is None
                &&& final(self).spec_status() == ProcessorStatus::Stopping
            },
            final(self).spec_actor().spec_state() == state_after(old(self).spec_actor().spec_state(), ActorMessage::Control(ControlMessage::Stop)),
            final(self).spec_actor().spec_path() == old(self).spec_actor().spec_path(),
            final(self).spec_actor().spec_watchers() == old(self).spec_actor().spec_watchers(),
            final(self).spec_stats() == old(self).spec_stats(),
            final(self).spec_path() == old(self).spec_path(),
            final(self).spec_config() == old(self).spec_config(),
            final(self).spec_context() == old(self).spec_context(),
            final(self).spec_mailbox() == old(self).spec_mailbox(),
    {
        self.status = ProcessorStatus::Stopping;
        let step = self.actor.process_message(ActorMessage::Control(ControlMessage::Stop), &self.context);
        match step {
            Step::RunStopHook => None,
            _ => {
                self.status = ProcessorStatus::Stopped;
                Some(Ok(()))
            },
        }
    }

    /// Takes the result of the actor's stop hook: the actor is stopped either
    /// way and the answer lists the watchers to tell. When the hook failed the
    /// processor fails, counts one more error and reports `ActorCreationError`;
    /// otherwise it is stopped.
    pub fn finish_stop(&mut self, hook_result: Result<(), ActorError>) -> (r: (Result<(), SystemError>, Vec<String>))
        requires
            old(self).wf(),
        ensures
            final(self).wf(),
            final(self).spec_actor().spec_state() == ActorState::Stopped,
            final(self).spec_actor().spec_path() == old(self).spec_actor().spec_path(),
            final(self).spec_actor().spec_watchers() == old(self).spec_actor().spec_watchers(),
            crate::thread::registry::views(r.1@).to_set() == match old(self).spec_actor().spec_watchers() {
                Some(w) => w,
                None => Set::<Seq<char>>::empty(),
            },
            hook_result is Ok ==> {
                &&& r.0 is Ok
                &&& final(self).spec_status() == ProcessorStatus::Stopped
                &&& final(self).spec_stats() == old(self).spec_stats()
            },
            hook_result matches Err(e) ==> {
                &&& r.0 matches Err(SystemError::ActorCreationError(t)) && t@ == lifecycle_failure_text("stop"@, old(self).spec_path(), reason_of(e))
                &&& final(self).spec_status() == ProcessorStatus::Failed
                &&& final(self).spec_stats().errors_encountered == bumped(old(self).spec_stats().errors_encountered)
                &&& final(self).spec_stats().messages_processed == old(self).spec_stats().messages_processed
            },
            final(self).spec_path() == old(self).spec_path(),
            final(self).spec_config() == old(self).spec_config(),
            final(self).spec_context() == old(self).spec_context(),
            final(self).spec_mailbox() == old(self).spec_mailbox(),
    {
        let watchers = self.actor.finish_shutdown();
        match hook_result {
            Ok(()) => {
                self.status = ProcessorStatus::Stopped;
                (Ok(()), watchers)
            },
            Err(e) => (Err(self.fail("stop", &e)), watchers),
        }
    }

    /// Takes one message. A processor that is not running refuses it (nothing
    /// is counted); otherwise the actor decides the step (see `takes_step`). A
    /// step that finishes the message at once (`Done` or `Fail`) is counted
    /// here; for the others the owner runs the actor's code and reports how it
    /// ended with `record_outcome`.
    pub fn process_message(&mut self, msg: ActorMessage) -> (r: Result<Step, ActorError>)
        requires
            old(self).wf(),
        ensures
            final(self).wf(),
            final(self).spec_path() == old(self).spec_path(),
            final(self).spec_config() == old(self).spec_config(),
            final(self).spec_context() == old(self).spec_context(),
            final(self).spec_mailbox() == old(self).spec_mailbox(),
            final(self).spec_status() == old(self).spec_status(),
            old(self).spec_status() != ProcessorStatus::Running ==> {
                &&& r matches Err(ActorError::Other(t)) && t@ == not_running_text(old(self).spec_path(), old(self).spec_status())
                &&& final(self).spec_actor() == old(self).spec_actor()
                &&& final(self).spec_stats() == old(self).spec_stats()
            },
            old(self).spec_status() == ProcessorStatus::Running ==> {
                &&& r is Ok
                &&& takes_step(r->Ok_0, old(self).spec_actor().spec_state(), msg, match msg {
                        ActorMessage::Control(ControlMessage::ChildFailure { path, reason }) => old(self).spec_context().children().contains_key(path@),
                        _ => false,
                    })
                &&& final(self).spec_actor().spec_state() == state_after(old(self).spec_actor().spec_state(), msg)
                &&& final(self).spec_stats().messages_processed == (
                        if r->Ok_0 is Done || r->Ok_0 is Fail { bumped(old(self).spec_stats().messages_processed) }
                        else { old(self).spec_stats().messages_processed })
                &&& final(self).spec_stats().errors_encountered == (
                        if r->Ok_0 is Fail { bumped(old(self).spec_stats().errors_encountered) }
                        else { old(self).spec_stats().errors_encountered })
            },
    {
        if self.status != ProcessorStatus::Running {
            let name = status_name_string(self.status);
            let head = join3("Actor at ", self.path.as_str(), " is not running, current status: ");
            return Err(ActorError::Other(join2(head.as_str(), name.as_str())));
        }
        let step = self.actor.process_message(msg, &self.context);
        match &step {
            Step::Done(_) => {
                self.stats.messages_processed = bump(self.stats.messages_processed);
            },
            Step::Fail(_) => {
                self.stats.messages_processed = bump(self.stats.messages_processed);
                self.stats.errors_encountered = bump(self.stats.errors_encountered);
            },
            _ => {},
        }
        Ok(step)
    }

    /// Counts a message whose handling the owner ran: one more message, and
    /// one more error unless it was handled.
    pub fn record_outcome(&mut self, outcome: &MessageOutcome)
        ensures
            final(self).spec_stats().messages_processed == bumped(old(self).spec_stats().messages_processed),
            final(self).spec_stats().errors_encountered == (
                if *outcome is Handled { old(self).spec_stats().errors_encountered } else { bumped(old(self).spec_stats().errors_encountered) }),
            final(self).spec_stats().processing_time_ns == old(self).spec_stats().processing_time_ns,
            final(self).spec_status() == old(self).spec_status(),
            final(self).spec_actor() == old(self).spec_actor(),
            final(self).spec_path() == old(self).spec_path(),
            final(self).spec_config() == old(self).spec_config(),
            final(self).spec_context() == old(self).spec_context(),
            final(self).spec_mailbox() == old(self).spec_mailbox(),
            final(self).wf() == old(self).wf(),
    {
        self.stats.messages_processed = bump(self.stats.messages_processed);
        match outcome {
            MessageOutcome::Handled => {},
            _ => {
                self.stats.errors_encountered = bump(self.stats.errors_encountered);
            },
        }
    }

    /// Handles a batch of at most `max_messages` messages: a processor that is
    /// not running handles none (`(0, false)`); otherwise it takes the oldest
    /// message, hands it to `handler` (the actor's message handling), counts
    /// it, and goes on until the batch is full, the mailbox is empty or the
    /// actor panicked. The answer is the number of messages handled and
    /// whether handling any of them failed.
    pub fn process_batch<F: Fn(u64) -> MessageOutcome>(&mut self, max_messages: usize, handler: F) -> (r: (usize, bool))
        requires
            old(self).wf(),
            forall|id: u64| call_requires(handler, (id,)),
        ensures
            final(self).wf(),
            final(self).spec_status() == old(self).spec_status(),
            final(self).spec_actor() == old(self).spec_actor(),
            final(self).spec_path() == old(self).spec_path(),
            final(self).spec_config() == old(self).spec_config(),
            final(self).spec_context() == old(self).spec_context(),
            final(self).spec_mailbox().capacity == old(self).spec_mailbox().capacity,
            final(self).spec_mailbox().closed == old(self).spec_mailbox().closed,
            final(self).spec_mailbox().path == old(self).spec_mailbox().path,
            final(self).spec_stats().processing_time_ns == old(self).spec_stats().processing_time_ns,
            old(self).spec_status() != ProcessorStatus::Running ==> {
                &&& r == (0usize, false)
                &&& final(self).spec_mailbox().queue == old(self).spec_mailbox().queue
                &&& final(self).spec_stats() == old(self).spec_stats()
            },
            old(self).spec_status() == ProcessorStatus::Running ==> exists|outs: Seq<MessageOutcome>| {
                &&& #[trigger] batch_ran(handler, old(self).spec_mailbox().queue, max_messages, outs)
                &&& r.0 == outs.len()
                &&& r.1 == (count_failed(outs) > 0)
                &&& final(self).spec_mailbox().queue == old(self).spec_mailbox().queue.skip(r.0 as int)
                &&& final(self).spec_stats().messages_processed == bumped_times(old(self).spec_stats().messages_processed, outs.len())
                &&& final(self).spec_stats().errors_encountered == bumped_times(old(self).spec_stats().errors_encountered, count_failed(outs))
            },
    {
        if self.status != ProcessorStatus::Running {
            return (0, false);
        }
        let ghost start = self.mailbox.model();
        let ghost stats0 = self.stats;
        let ghost mut outs: Seq<MessageOutcome> = Seq::empty();
        let mut processed: usize = 0;
        let mut had_error = false;
        while processed < max_messages
            invariant_except_break
                forall|i: int| 0 <= i < outs.len() ==> !(#[trigger] outs[i] is Panicked),
            invariant
                self.wf(),
                forall|id: u64| call_requires(handler, (id,)),
                self.status == ProcessorStatus::Running,
                self.actor == old(self).actor,
                self.context == old(self).context,
                self.path@ == old(self).path@,
                self.config == old(self).config,
                self.stats.processing_time_ns == stats0.processing_time_ns,
                start == old(self).spec_mailbox(),
                stats0 == old(self).spec_stats(),
                processed == outs.len(),
                processed <= max_messages,
                processed <= start.queue.len(),
                self.mailbox.model().queue == start.queue.skip(processed as int),
                self.mailbox.model().capacity == start.capacity,
                self.mailbox.model().closed == start.closed,
                self.mailbox.model().path == start.path,
                forall|i: int| 0 <= i < outs.len() ==> call_ensures(handler, (start.queue[i],), #[trigger] outs[i]),
                forall|i: int| 0 <= i < outs.len() - 1 ==> !(#[trigger] outs[i] is Panicked),
                had_error == (count_failed(outs) > 0),
                self.stats.messages_processed == bumped_times(stats0.messages_processed, outs.len()),
                self.stats.errors_encountered == bumped_times(stats0.errors_encountered, count_failed(outs)),
            ensures
                processed == max_messages || processed == start.queue.len() || (processed > 0 && outs.last() is Panicked),
            decreases max_messages - processed,
        {
            match self.mailbox.pop_id() {
                None => {
                    break;
                },
                Some(id) => {
                    let outcome = handler(id);
                    self.record_outcome(&outcome);
                    let ghost before = outs;
                    proof {
                        outs = outs.push(outcome);
                        assert(outs.drop_last() =~= before);
                        assert(start.queue.skip(processed + 1) =~= start.queue.skip(processed as int).drop_first());
                        assert(start.queue[processed as int] == id);
                    }
                    processed = processed + 1;
                    match outcome {
                        MessageOutcome::Handled => {},
                        MessageOutcome::Failed(_) => {
                            had_error = true;
                        },
                        MessageOutcome::Panicked(_) => {
                            had_error = true;
                            break;
                        },
                    }
                },
            }
        }
        proof {
            assert(batch_ran(handler, start.queue, max_messages, outs));
        }
        (processed, had_error)
    }

    /// The error an actor's panic while handling a message turns into.
    pub fn panic_error(&self, detail: &str) -> (e: ActorError)
        ensures
            e matches ActorError::Panic(t) && t@ == panic_text(self.spec_path(), detail@),
    {
        ActorError::Panic(join4("Panic in actor ", self.path.as_str(), ": ", detail))
    }

    /// Starts a batch of at most `max_messages` messages.
    pub fn begin_batch(&self, max_messages: usize) -> (run: BatchRun)
        ensures
            run == (BatchRun { max_messages, processed: 0, had_error: false, ended: false }),
    {
        BatchRun { max_messages, processed: 0, had_error: false, ended: false }
    }

    /// The next message of the batch `run`: none once the batch is full or
    /// ended, or when the processor is not running; otherwise the oldest
    /// message of the mailbox, the batch ending when there is none.
    pub fn batch_next(&mut self, run: &mut BatchRun) -> (r: Option<u64>)
        requires
            old(self).wf(),
        ensures
            final(self).wf(),
            final(self).spec_actor() == old(self).spec_actor(),
            final(self).spec_path() == old(self).spec_path(),
            final(self).spec_config() == old(self).spec_config(),
            final(self).spec_context() == old(self).spec_context(),
            final(self).spec_status() == old(self).spec_status(),
            final(self).spec_stats() == old(self).spec_stats(),
            final(self).spec_mailbox().capacity == old(self).spec_mailbox().capacity,
            final(self).spec_mailbox().closed == old(self).spec_mailbox().closed,
            final(self).spec_mailbox().path == old(self).spec_mailbox().path,
            final(run).max_messages == old(run).max_messages,
            final(run).processed == old(run).processed,
            final(run).had_error == old(run).had_error,
            old(run).ended || old(run).processed >= old(run).max_messages || old(self).spec_status() != ProcessorStatus::Running ==> {
                &&& r is None
                &&& final(self).spec_mailbox().queue == old(self).spec_mailbox().queue
                &&& final(run).ended == old(run).ended
            },
            !(old(run).ended || old(run).processed >= old(run).max_messages || old(self).spec_status() != ProcessorStatus::Running) ==> {
                &&& r == pop_result(old(self).spec_mailbox())
                &&& final(self).spec_mailbox().queue == (if old(self).spec_mailbox().queue.len() > 0 {
                        old(self).spec_mailbox().queue.drop_first() } else { old(self).spec_mailbox().queue })
                &&& final(run).ended == (r is None)
            },
    {
        if run.ended || run.processed >= run.max_messages || self.status != ProcessorStatus::Running {
            return None;
        }
        let r = self.mailbox.pop_id();
        if r.is_none() {
            run.ended = true;
        }
        r
    }

    /// Records how handling the batch's latest message ended: it counts, an
    /// error marks the batch, and a panic ends it.
    pub fn batch_record(&mut self, run: &mut BatchRun, outcome: &MessageOutcome)
        ensures
            final(run).max_messages == old(run).max_messages,
            final(run).processed == (if old(run).processed == usize::MAX { old(run).processed } else { (old(run).processed + 1) as usize }),
            final(run).had_error == (old(run).had_error || !(*outcome is Handled)),
            final(run).ended == (old(run).ended || *outcome is Panicked),
            final(self).spec_stats().messages_processed == bumped(old(self).spec_stats().messages_processed),
            final(self).spec_stats().errors_encountered == (
                if *outcome is Handled { old(self).spec_stats().errors_encountered } else { bumped(old(self).spec_stats().errors_encountered) }),
            final(self).spec_status() == old(self).spec_status(),
            final(self).spec_actor() == old(self).spec_actor(),
            final(self).spec_path() == old(self).spec_path(),
            final(self).spec_config() == old(self).spec_config(),
            final(self).spec_context() == old(self).spec_context(),
            final(self).spec_mailbox() == old(self).spec_mailbox(),
            final(self).wf() == old(self).wf(),
    {
        self.record_outcome(outcome);
        if run.processed < usize::MAX {
            run.processed = run.processed + 1;
        }
        match outcome {
            MessageOutcome::Handled => {},
            MessageOutcome::Failed(_) => {
                run.had_error = true;
            },
            MessageOutcome::Panicked(_) => {
                run.had_error = true;
                run.ended = true;
            },
        }
    }

    /// Pauses the processor.
    pub fn pause(&mut self)
        ensures
            final(self).spec_status() == ProcessorStatus::Paused,
            final(self).spec_stats() == old(self).spec_stats(),
            final(self).spec_actor() == old(self).spec_actor(),
            final(self).spec_path() == old(self).spec_path(),
            final(self).spec_config() == old(self).spec_config(),
            final(self).spec_context() == old(self).spec_context(),
            final(self).spec_mailbox() == old(self).spec_mailbox(),
            final(self).wf() == old(self).wf(),
    {
        self.status = ProcessorStatus::Paused;
    }

    /// Resumes the processor: it is running.
    pub fn resume(&mut self)
        ensures
            final(self).spec_status() == ProcessorStatus::Running,
            final(self).spec_stats() == old(self).spec_stats(),
            final(self).spec_actor() == old(self).spec_actor(),
            final(self).spec_path() == old(self).spec_path(),
            final(self).spec_config() == old(self).spec_config(),
            final(self).spec_context() == old(self).spec_context(),
            final(self).spec_mailbox() == old(self).spec_mailbox(),
            final(self).wf() == old(self).wf(),
    {
        self.status = ProcessorStatus::Running;
    }

    /// The processor's status.
    pub fn get_status(&self) -> (s: ProcessorStatus)
        ensures
            s == self.spec_status(),
    {
        self.status
    }

    /// The processor's counters.
    pub fn get_statistics(&self) -> (s: WorkerStats)
        ensures
            s == self.spec_stats(),
    {
        self.stats
    }

    /// The actor's mailbox.
    pub fn mailbox(&self) -> (m: &M)
        ensures
            m.model() == self.spec_mailbox(),
            self.wf() ==> m.well_formed(),
    {
        &self.mailbox
    }

    /// The actor's path.
    pub fn path(&self) -> (p: &String)
        ensures
            p@ == self.spec_path(),
    {
        &self.path
    }

    /// Whether the mailbox holds messages.
    pub fn has_pending_messages(&self) -> (b: bool)
        requires
            self.wf(),
        ensures
            b == (self.spec_mailbox().queue.len() > 0),
    {
        !self.mailbox.no_messages()
    }
}

} // verus!
