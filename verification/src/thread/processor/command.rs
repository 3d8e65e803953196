//! The command loop that runs a started processor: how large its batches are,
//! what each command makes it do, and the batch that hands every message it
//! takes back to the mailbox for the actor's own handling.

use vstd::prelude::*;
use crate::thread::actor::ActorError;
use crate::thread::config::{BackpressureStrategy, SchedulingMode, ThreadActorConfig, DEFAULT_DEDICATED_THREAD_MAILBOX_CAPACITY};
use crate::thread::error::MailboxError;
use crate::thread::mailbox::{Mailbox, MailboxModel};
use crate::thread::text::join2;

verus! {

/// A command to a running processor.
#[derive(Debug, Clone, Copy, PartialEq, Eq, Structural)]
pub enum ProcessorCommand {
    /// Process a batch of at most this many messages.
    ProcessBatch { max_messages: usize },
    /// Stop processing.
    Stop,
    /// Pause processing.
    Pause,
    /// Resume processing.
    Resume,
}

/// What the command loop does next.
#[derive(Debug, Clone, Copy, PartialEq, Eq, Structural)]
pub enum LoopAction {
    /// Run a batch of at most this many messages.
    RunBatch(usize),
    /// Leave the loop.
    Exit,
    /// Wait for the next command.
    Wait,
}

/// Batch size of an actor without a scheduling mode.
pub const DEFAULT_BATCH_SIZE: usize = 1024;

/// How many messages a batch of the processor handles, given the actor's
/// configuration: a shared-pool actor's run length; a dedicated actor's mailbox
/// capacity (102400 when unset); 1024 otherwise.
pub open spec fn spec_batch_size(config: ThreadActorConfig) -> usize {
    match config.scheduling_mode {
        Some(SchedulingMode::SharedPool { max_messages_per_run }) => max_messages_per_run,
        Some(SchedulingMode::DedicatedThread) => match config.mailbox_capacity {
            Some(c) => c,
            None => DEFAULT_DEDICATED_THREAD_MAILBOX_CAPACITY,
        },
        None => DEFAULT_BATCH_SIZE,
    }
}

/// How many messages a batch of the processor handles (see `spec_batch_size`).
pub fn batch_size(config: &ThreadActorConfig) -> (n: usize)
    ensures
        n == spec_batch_size(*config),
{
    match config.scheduling_mode {
        Some(SchedulingMode::SharedPool { max_messages_per_run }) => max_messages_per_run,
        Some(SchedulingMode::DedicatedThread) => match config.mailbox_capacity {
            Some(c) => c,
            None => DEFAULT_DEDICATED_THREAD_MAILBOX_CAPACITY,
        },
        None => DEFAULT_BATCH_SIZE,
    }
}

/// What the loop does on `cmd`, batches being `batch_size` long: a batch
/// command runs a batch of its own size, `Resume` runs a regular batch, `Stop`
/// leaves and `Pause` waits.
pub open spec fn spec_action(cmd: ProcessorCommand, batch_size: usize) -> LoopAction {
    match cmd {
        ProcessorCommand::ProcessBatch { max_messages } => LoopAction::RunBatch(max_messages),
        ProcessorCommand::Stop => LoopAction::Exit,
        ProcessorCommand::Pause => LoopAction::Wait,
        ProcessorCommand::Resume => LoopAction::RunBatch(batch_size),
    }
}

/// The queue after the oldest message was taken and put back at the end.
pub open spec fn rotate_once(q: Seq<u64>) -> Seq<u64> {
    if q.len() > 0 { q.drop_first().push(q[0]) } else { q }
}

/// The queue after `n` messages were taken and put back, one after the other.
pub open spec fn recycled(q: Seq<u64>, n: nat) -> Seq<u64>
    decreases n,
{
    if n == 0 { q } else { rotate_once(recycled(q, (n - 1) as nat)) }
}

/// The text of the error when a message could not be put back: the mailbox's
/// refusal, after the common prefix.
pub open spec fn push_back_failure_text(e: MailboxError) -> Seq<char> {
    "Failed to push message back to mailbox: "@ + e.text()
}

/// The state of a processor's command loop.
pub struct CommandLoop {
    path: String,
    config: ThreadActorConfig,
    running: bool,
    accepting: bool,
}

impl CommandLoop {
    /// The actor's path.
    pub closed spec fn spec_path(&self) -> Seq<char> {
        self.path@
    }

    /// The actor's configuration.
    pub closed spec fn spec_config(&self) -> ThreadActorConfig {
        self.config
    }

    /// Whether the loop was started and not shut down.
    pub closed spec fn spec_running(&self) -> bool {
        self.running
    }

    /// Whether commands are still accepted.
    pub closed spec fn spec_accepting(&self) -> bool {
        self.accepting
    }

    /// A loop for the actor at `path`, not yet started, accepting commands.
    pub fn new(path: String, config: ThreadActorConfig) -> (l: Self)
        ensures
            l.spec_path() == path@,
            l.spec_config() == config,
            !l.spec_running(),
            l.spec_accepting(),
    {
        CommandLoop { path, config, running: false, accepting: true }
    }

    /// Starts the loop: answers whether the processor must still be started
    /// (initialised, sent `Start`, given its first batch); a running loop
    /// needs nothing.
    pub fn begin_start(&mut self) -> (proceed: bool)
        ensures
            proceed == !old(self).spec_running(),
            final(self).spec_running(),
            final(self).spec_path() == old(self).spec_path(),
            final(self).spec_config() == old(self).spec_config(),
            final(self).spec_accepting() == old(self).spec_accepting(),
    {
        if self.running {
            return false;
        }
        self.running = true;
        true
    }

    /// The length of the loop's batches.
    pub fn batch_size(&self) -> (n: usize)
        ensures
            n == spec_batch_size(self.spec_config()),
    {
        batch_size(&self.config)
    }

    /// What the loop does on `cmd` (see `spec_action`).
    pub fn on_command(&self, cmd: ProcessorCommand) -> (a: LoopAction)
        ensures
            a == spec_action(cmd, spec_batch_size(self.spec_config())),
    {
        match cmd {
            ProcessorCommand::ProcessBatch { max_messages } => LoopAction::RunBatch(max_messages),
            ProcessorCommand::Stop => LoopAction::Exit,
            ProcessorCommand::Pause => LoopAction::Wait,
            ProcessorCommand::Resume => LoopAction::RunBatch(self.batch_size()),
        }
    }

    /// Ends the loop once the actor was sent `Stop`: no more commands are
    /// accepted and it no longer runs.
    pub fn shutdown(&mut self)
        ensures
            !final(self).spec_running(),
            !final(self).spec_accepting(),
            final(self).spec_path() == old(self).spec_path(),
            final(self).spec_config() == old(self).spec_config(),
    {
        self.accepting = false;
        self.running = false;
    }

    /// Whether commands are still accepted.
    pub fn accepting(&self) -> (b: bool)
        ensures
            b == self.spec_accepting(),
    {
        self.accepting
    }
}

/// One batch of the loop: up to `max_messages` times it takes the oldest
/// message and puts it straight back at the end of the mailbox, for the
/// actor's own handling; it stops early on an empty mailbox. An open mailbox
/// answers the number of messages moved, its queue rotated by that many; a
/// closed one refuses the first message back, which is lost, and the batch
/// fails with `MessageSendError`.
pub fn recycle_batch<M: Mailbox>(mailbox: &mut M, max_messages: usize) -> (r: Result<usize, ActorError>)
    requires
        old(mailbox).well_formed(),
    ensures
        final(mailbox).well_formed(),
        final(mailbox).model().capacity == old(mailbox).model().capacity,
        final(mailbox).model().closed == old(mailbox).model().closed,
        final(mailbox).model().path == old(mailbox).model().path,
        old(mailbox).model().queue.len() == 0 || max_messages == 0 ==> {
            &&& r == Ok::<usize, ActorError>(0)
            &&& final(mailbox).model().queue == old(mailbox).model().queue
        },
        old(mailbox).model().queue.len() > 0 && max_messages > 0 && !old(mailbox).model().closed ==> {
            &&& r == Ok::<usize, ActorError>(max_messages)
            &&& final(mailbox).model().queue == recycled(old(mailbox).model().queue, max_messages as nat)
        },
        old(mailbox).model().queue.len() > 0 && max_messages > 0 && old(mailbox).model().closed ==> {
            &&& r matches Err(ActorError::MessageSendError(t)) && t@ == push_back_failure_text(MailboxError::Closed)
            &&& final(mailbox).model().queue == old(mailbox).model().queue.drop_first()
        },
{
    let ghost start: MailboxModel = mailbox.model();
    let mut processed: usize = 0;
    let mut i: usize = 0;
    while i < max_messages
        invariant
            mailbox.well_formed(),
            start == old(mailbox).model(),
            i <= max_messages,
            processed == i,
            mailbox.model().capacity == start.capacity,
            mailbox.model().closed == start.closed,
            mailbox.model().path == start.path,
            start.closed && i > 0 ==> false,
            start.queue.len() == 0 ==> i == 0 && mailbox.model().queue == start.queue,
            start.queue.len() > 0 ==> mailbox.model().queue == recycled(start.queue, i as nat),
            mailbox.model().queue.len() == start.queue.len(),
        ensures
            mailbox.well_formed(),
            mailbox.model().capacity == start.capacity,
            mailbox.model().closed == start.closed,
            mailbox.model().path == start.path,
            start.queue.len() == 0 || max_messages == 0 ==> processed == 0 && mailbox.model().queue == start.queue,
            start.queue.len() > 0 && max_messages > 0 && !start.closed ==> processed == max_messages
                && mailbox.model().queue == recycled(start.queue, max_messages as nat),
            start.queue.len() > 0 && max_messages > 0 && start.closed ==> false,
        decreases max_messages - i,
    {
        let ghost before = mailbox.model().queue;
        proof {
            mailbox.lemma_within_capacity();
        }
        match mailbox.pop_id() {
            Some(id) => {
                match mailbox.push_id(id, BackpressureStrategy::Block) {
                    Ok(()) => {
                        proof {
                            assert(mailbox.model().queue == before.drop_first().push(id));
                            assert(rotate_once(before) == before.drop_first().push(before[0]));
                        }
                        processed = processed + 1;
                    },
                    Err(e) => {
                        let text = join2("Failed to push message back to mailbox: ", e.to_string().as_str());
                        return Err(ActorError::MessageSendError(text));
                    },
                }
            },
            None => {
                break;
            },
        }
        i = i + 1;
    }
    Ok(processed)
}

/// Taking messages out and putting them back loses none and adds none.
pub proof fn law_recycling_keeps_messages(q: Seq<u64>, n: nat)
    ensures
        recycled(q, n).to_multiset() == q.to_multiset(),
        recycled(q, n).len() == q.len(),
    decreases n,
{
    if n > 0 {
        law_recycling_keeps_messages(q, (n - 1) as nat);
        let p = recycled(q, (n - 1) as nat);
        if p.len() > 0 {
            let x = p[0];
            assert(p =~= seq![x] + p.drop_first());
            vstd::seq_lib::lemma_multiset_commutative(seq![x], p.drop_first());
            vstd::seq_lib::lemma_multiset_commutative(p.drop_first(), seq![x]);
            assert(p.drop_first().push(x) =~= p.drop_first() + seq![x]);
        }
    }
}

} // verus!
