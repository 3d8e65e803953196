//! The decisions of a dedicated worker thread's processing loop.

use vstd::prelude::*;
use crate::thread::error::SystemError;
use crate::thread::scheduler::dedicated_thread::WorkerSettings;
use crate::thread::text::join4;

verus! {

/// How long a paused worker waits before looking for commands again (milliseconds).
pub const PAUSE_WAIT_MILLIS: u64 = 500;

/// Commands sent to worker threads.
#[derive(Debug, Clone, Copy, PartialEq, Eq, Structural)]
pub enum WorkerCommand {
    /// Shut the worker down.
    Shutdown,
    /// Pause processing.
    Pause,
    /// Resume processing.
    Resume,
    /// Stop the actor (answered by the owner of the worker).
    Stop,
}

/// Worker thread state.
#[derive(Debug, Clone, Copy, PartialEq, Eq, Structural)]
pub enum WorkerState {
    /// Worker is initializing.
    Initializing,
    /// Worker is idle, waiting for work.
    Idle,
    /// Worker is paused, waiting for resume.
    Paused,
    /// Worker is processing a message.
    Processing,
    /// Worker is shutting down.
    ShuttingDown,
    /// Worker has encountered an error.
    Error,
}

/// The numeric code a worker state is stored as.
pub open spec fn worker_state_code(s: WorkerState) -> nat {
    match s {
        WorkerState::Initializing => 0,
        WorkerState::Idle => 1,
        WorkerState::Paused => 2,
        WorkerState::Processing => 3,
        WorkerState::ShuttingDown => 4,
        WorkerState::Error => 5,
    }
}

impl WorkerState {
    /// The numeric code of the state (0 to 5, in declaration order).
    pub fn code(self) -> (c: usize)
        ensures
            c == worker_state_code(self),
    {
        match self {
            WorkerState::Initializing => 0,
            WorkerState::Idle => 1,
            WorkerState::Paused => 2,
            WorkerState::Processing => 3,
            WorkerState::ShuttingDown => 4,
            WorkerState::Error => 5,
        }
    }

    /// The state with the given code; an unknown code reads as `Error`.
    pub fn from_code(c: usize) -> (s: Self)
        ensures
            c <= 5 ==> worker_state_code(s) == c,
            c > 5 ==> s == WorkerState::Error,
    {
        match c {
            0 => WorkerState::Initializing,
            1 => WorkerState::Idle,
            2 => WorkerState::Paused,
            3 => WorkerState::Processing,
            4 => WorkerState::ShuttingDown,
            _ => WorkerState::Error,
        }
    }
}

/// Reading back the code of a worker state gives the state.
pub proof fn law_worker_state_code_round_trip(s: WorkerState)
    ensures
        worker_state_code(s) <= 5,
        forall|t: WorkerState| worker_state_code(t) == worker_state_code(s) ==> t == s,
{
}

/// What the worker's loop does next.
#[derive(Debug, Clone, Copy, PartialEq, Eq, Structural)]
pub enum RunStep {
    /// Leave the loop.
    Exit,
    /// Wait `PAUSE_WAIT_MILLIS`, then look again.
    PauseWait,
    /// The mailbox is empty: wait the idle sleep, then look again.
    IdleWait,
    /// Process a batch of up to `batch_size` messages.
    Process,
}

/// How a batch of processing ended.
pub enum BatchEnd {
    /// The batch finished.
    Completed,
    /// The batch reported an error; the worker goes on.
    Failed,
    /// The actor panicked with this message; the worker stops.
    Panicked(String),
}

/// The report of a panic while a worker handled the messages of the actor at `path`.
pub open spec fn worker_panic_text(path: Seq<char>, detail: Seq<char>) -> Seq<char> {
    "Panic in worker for "@ + path + ": "@ + detail
}

/// The abstract state of a dedicated worker.
pub struct WorkerModel {
    pub path: Seq<char>,
    pub settings: WorkerSettings,
    pub batch_size: nat,
    pub shutdown: bool,
    pub state: WorkerState,
}

/// A dedicated worker: the state of the loop that processes one actor's
/// mailbox on its own thread. The thread, the command channel and the waiting
/// belong to the owner, which feeds each command and the mailbox's emptiness to
/// `step` and does what it answers.
pub struct Worker {
    path: String,
    settings: WorkerSettings,
    batch_size: usize,
    shutdown_flag: bool,
    state: WorkerState,
}

impl View for Worker {
    type V = WorkerModel;

    closed spec fn view(&self) -> WorkerModel {
        WorkerModel {
            path: self.path@,
            settings: self.settings,
            batch_size: self.batch_size as nat,
            shutdown: self.shutdown_flag,
            state: self.state,
        }
    }
}

impl Worker {
    /// A worker for the actor at `path`, initializing, not asked to stop.
    pub fn new(path: String, settings: WorkerSettings, batch_size: usize) -> (w: Self)
        ensures
            w@ == (WorkerModel {
                path: path@,
                settings,
                batch_size: batch_size as nat,
                shutdown: false,
                state: WorkerState::Initializing,
            }),
    {
        Worker { path, settings, batch_size, shutdown_flag: false, state: WorkerState::Initializing }
    }

    /// The loop starts: the worker is idle.
    pub fn begin(&mut self)
        ensures
            final(self)@ == (WorkerModel { state: WorkerState::Idle, ..old(self)@ }),
    {
        self.state = WorkerState::Idle;
    }

    /// One turn of the loop, given the pending command (if any) and whether the
    /// mailbox is empty. A stop request or a `Shutdown` command ends the loop
    /// (the worker is then shutting down); `Pause` pauses and waits; otherwise an
    /// empty mailbox means waiting idle and a non-empty one means processing.
    pub fn step(&mut self, command: Option<WorkerCommand>, mailbox_empty: bool) -> (r: RunStep)
        ensures
            final(self)@.path == old(self)@.path,
            final(self)@.settings == old(self)@.settings,
            final(self)@.batch_size == old(self)@.batch_size,
            old(self)@.shutdown ==> r == RunStep::Exit && final(self)@ == (WorkerModel { state: WorkerState::ShuttingDown, ..old(self)@ }),
            !old(self)@.shutdown && command == Some(WorkerCommand::Shutdown) ==> {
                &&& r == RunStep::Exit
                &&& final(self)@ == (WorkerModel { shutdown: true, state: WorkerState::ShuttingDown, ..old(self)@ })
            },
            !old(self)@.shutdown && command == Some(WorkerCommand::Pause) ==> {
                &&& r == RunStep::PauseWait
                &&& final(self)@ == (WorkerModel { state: WorkerState::Paused, ..old(self)@ })
            },
            !old(self)@.shutdown && command != Some(WorkerCommand::Shutdown) && command != Some(WorkerCommand::Pause) ==> {
                &&& mailbox_empty ==> r == RunStep::IdleWait && final(self)@ == old(self)@
                &&& !mailbox_empty ==> r == RunStep::Process && final(self)@ == (WorkerModel { state: WorkerState::Processing, ..old(self)@ })
            },
    {
        if self.shutdown_flag {
            self.state = WorkerState::ShuttingDown;
            return RunStep::Exit;
        }
        match command {
            Some(WorkerCommand::Shutdown) => {
                self.shutdown_flag = true;
                self.state = WorkerState::ShuttingDown;
                return RunStep::Exit;
            },
            Some(WorkerCommand::Pause) => {
                self.state = WorkerState::Paused;
                return RunStep::PauseWait;
            },
            _ => {},
        }
        if mailbox_empty {
            RunStep::IdleWait
        } else {
            self.state = WorkerState::Processing;
            RunStep::Process
        }
    }

    /// Records how a batch ended. A finished or failed batch leaves the worker
    /// idle and the loop goes on (`Ok`); a panic leaves it in `Error` and ends
    /// the loop with `WorkerStateError` reporting the panic for the worker's actor.
    pub fn finish_batch(&mut self, end: BatchEnd) -> (r: Result<(), SystemError>)
        ensures
            final(self)@.path == old(self)@.path,
            final(self)@.settings == old(self)@.settings,
            final(self)@.batch_size == old(self)@.batch_size,
            final(self)@.shutdown == old(self)@.shutdown,
            match end {
                BatchEnd::Panicked(m) => final(self)@.state == WorkerState::Error
                    && (r matches Err(SystemError::WorkerStateError(t)) && t@ == worker_panic_text(old(self)@.path, m@)),
                _ => final(self)@.state == WorkerState::Idle && r is Ok,
            },
    {
        match end {
            BatchEnd::Panicked(m) => {
                self.state = WorkerState::Error;
                Err(SystemError::WorkerStateError(join4("Panic in worker for ", self.path.as_str(), ": ", m.as_str())))
            },
            _ => {
                self.state = WorkerState::Idle;
                Ok(())
            },
        }
    }

    /// Asks the loop to stop at its next turn.
    pub fn stop(&mut self)
        ensures
            final(self)@ == (WorkerModel { shutdown: true, ..old(self)@ }),
    {
        self.shutdown_flag = true;
    }

    /// The worker's current state.
    pub fn get_state(&self) -> (s: WorkerState)
        ensures
            s == self@.state,
    {
        self.state
    }

    /// Messages processed per batch.
    pub fn batch_size(&self) -> (n: usize)
        ensures
            n == self@.batch_size,
    {
        self.batch_size
    }

    /// The actor's path.
    pub fn path(&self) -> (p: &String)
        ensures
            p@ == self@.path,
    {
        &self.path
    }

    /// The thread settings the worker was created with.
    pub fn settings(&self) -> (s: WorkerSettings)
        ensures
            s == self@.settings,
    {
        self.settings
    }
}

} // verus!
