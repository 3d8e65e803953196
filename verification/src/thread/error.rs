//! Error types of the thread-based actor system, each with its message text.

use vstd::prelude::*;
use std::time::Duration;
use crate::thread::text::{decimal, decimal_string, join2, join3, join4};

verus! {

/// Declares `anyhow::Error`, carried by `SystemError::Other`.
#[verifier::external_type_specification]
#[verifier::external_body]
pub struct ExAnyhowError(anyhow::Error);

/// The text that `anyhow::Error`'s `Display` writes for an error value.
pub uninterp spec fn anyhow_display(e: anyhow::Error) -> Seq<char>;

/// The text that `Duration`'s `Debug` writes (such as `5s` or `1.5ms`).
pub uninterp spec fn duration_debug(d: Duration) -> Seq<char>;

/// Calls `anyhow::Error::msg`; the error displays as the given message.
#[verifier::external_body]
pub(crate) fn anyhow_msg(message: String) -> (e: anyhow::Error)
    ensures
        anyhow_display(e) == message@,
{
    anyhow::Error::msg(message)
}

/// Calls `anyhow::Error`'s `to_string` (its `Display`); the text is `anyhow_display(*e)`.
#[verifier::external_body]
pub(crate) fn anyhow_to_string(e: &anyhow::Error) -> (s: String)
    ensures
        s@ == anyhow_display(*e),
{
    e.to_string()
}

/// Formats a duration with `Debug` (`format!("{:?}", d)`); the text is `duration_debug(*d)`.
#[verifier::external_body]
pub(crate) fn duration_to_debug_string(d: &Duration) -> (s: String)
    ensures
        s@ == duration_debug(*d),
{
    format!("{:?}", d)
}

/// Errors related to mailbox operations.
#[derive(Debug, Clone)]
pub enum MailboxError {
    /// The mailbox is full.
    Full { capacity: usize },
    /// The mailbox is closed.
    Closed,
    /// A push failed for the given reason.
    PushError(String),
    /// A pop failed for the given reason.
    PopError(String),
    /// The underlying channel failed.
    ChannelError(String),
}

impl MailboxError {
    /// The message text of the error.
    pub open spec fn text(self) -> Seq<char> {
        match self {
            MailboxError::Full { capacity } => "Mailbox is full (capacity: "@ + decimal(capacity as nat) + ")"@,
            MailboxError::Closed => "Mailbox is closed"@,
            MailboxError::PushError(r) => "Failed to push message: "@ + r@,
            MailboxError::PopError(r) => "Failed to pop message: "@ + r@,
            MailboxError::ChannelError(r) => "Internal channel error: "@ + r@,
        }
    }

    /// The message text of the error.
    pub fn to_string(&self) -> (s: String)
        ensures
            s@ == self.text(),
    {
        match self {
            MailboxError::Full { capacity } => {
                let n = decimal_string(*capacity);
                join3("Mailbox is full (capacity: ", n.as_str(), ")")
            },
            MailboxError::Closed => String::from_str("Mailbox is closed"),
            MailboxError::PushError(r) => join2("Failed to push message: ", r.as_str()),
            MailboxError::PopError(r) => join2("Failed to pop message: ", r.as_str()),
            MailboxError::ChannelError(r) => join2("Internal channel error: ", r.as_str()),
        }
    }
}

/// Errors related to actor reference operations (other than ask).
#[derive(Debug, Clone)]
pub enum ActorRefError {
    /// The mailbox refused the message.
    MailboxError(String),
    /// The actor does not exist.
    NotFound,
}

impl ActorRefError {
    /// The message text of the error.
    pub open spec fn text(self) -> Seq<char> {
        match self {
            ActorRefError::MailboxError(r) => "Mailbox error during send: "@ + r@,
            ActorRefError::NotFound => "Actor not found"@,
        }
    }

    /// The message text of the error.
    pub fn to_string(&self) -> (s: String)
        ensures
            s@ == self.text(),
    {
        match self {
            ActorRefError::MailboxError(r) => join2("Mailbox error during send: ", r.as_str()),
            ActorRefError::NotFound => String::from_str("Actor not found"),
        }
    }
}

/// Errors related to the ask pattern.
#[derive(Debug)]
pub enum AskError {
    /// The request could not be put into the mailbox.
    SendError(String),
    /// The reply could not be received.
    ReceiveError(String),
    /// No reply came within the timeout.
    Timeout(Duration),
    /// The actor failed while processing the request; holds the failure's text.
    ActorError(String),
    /// The system is shutting down.
    SystemShutdown,
}

impl AskError {
    /// The message text of the error.
    pub open spec fn text(self) -> Seq<char> {
        match self {
            AskError::SendError(r) => "Failed to send ask message to mailbox: "@ + r@,
            AskError::ReceiveError(r) => "Failed to receive reply: "@ + r@,
            AskError::Timeout(d) => "Ask operation timed out after "@ + duration_debug(d),
            AskError::ActorError(r) => "Actor processing failed: "@ + r@,
            AskError::SystemShutdown => "System is shutting down"@,
        }
    }

    /// The message text of the error.
    pub fn to_string(&self) -> (s: String)
        ensures
            s@ == self.text(),
    {
        match self {
            AskError::SendError(r) => join2("Failed to send ask message to mailbox: ", r.as_str()),
            AskError::ReceiveError(r) => join2("Failed to receive reply: ", r.as_str()),
            AskError::Timeout(d) => {
                let t = duration_to_debug_string(d);
                join2("Ask operation timed out after ", t.as_str())
            },
            AskError::ActorError(r) => join2("Actor processing failed: ", r.as_str()),
            AskError::SystemShutdown => String::from_str("System is shutting down"),
        }
    }
}

/// Errors related to spawning actors.
#[derive(Debug, Clone)]
pub enum SpawnError {
    /// An actor already exists at the path.
    ActorPathAlreadyExists(String),
    /// The actor failed to initialize.
    InitializationFailed(String),
    /// The scheduler refused the actor.
    SchedulerError(String),
    /// The configuration is invalid.
    InvalidConfig(String),
    /// The system is shutting down.
    SystemShutdown,
}

impl SpawnError {
    /// The message text of the error.
    pub open spec fn text(self) -> Seq<char> {
        match self {
            SpawnError::ActorPathAlreadyExists(p) => "Actor path already exists: "@ + p@,
            SpawnError::InitializationFailed(r) => "Failed to initialize actor: "@ + r@,
            SpawnError::SchedulerError(r) => "Scheduler error: "@ + r@,
            SpawnError::InvalidConfig(r) => "Invalid configuration: "@ + r@,
            SpawnError::SystemShutdown => "System is shutting down"@,
        }
    }

    /// The message text of the error.
    pub fn to_string(&self) -> (s: String)
        ensures
            s@ == self.text(),
    {
        match self {
            SpawnError::ActorPathAlreadyExists(p) => join2("Actor path already exists: ", p.as_str()),
            SpawnError::InitializationFailed(r) => join2("Failed to initialize actor: ", r.as_str()),
            SpawnError::SchedulerError(r) => join2("Scheduler error: ", r.as_str()),
            SpawnError::InvalidConfig(r) => join2("Invalid configuration: ", r.as_str()),
            SpawnError::SystemShutdown => String::from_str("System is shutting down"),
        }
    }
}

/// Errors related to the actor system itself.
#[derive(Debug)]
pub enum SystemError {
    ThreadSetupError(String),
    NotRunning,
    ShuttingDown,
    ShutdownError(String),
    ActorCreationError(String),
    ActorNotFound(String),
    RegistrationError(String),
    ConfigError(String),
    Timeout(String),
    WorkerStateError(String),
    /// Any other failure, carried as an `anyhow::Error`.
    Other(anyhow::Error),
}

impl SystemError {
    /// The message text of the error.
    pub open spec fn text(self) -> Seq<char> {
        match self {
            SystemError::ThreadSetupError(r) => "Thread setup error: "@ + r@,
            SystemError::NotRunning => "Actor system is not running"@,
            SystemError::ShuttingDown => "Actor system is already shutting down"@,
            SystemError::ShutdownError(r) => "Failed during shutdown: "@ + r@,
            SystemError::ActorCreationError(r) => "Actor creation failed: "@ + r@,
            SystemError::ActorNotFound(p) => "Actor not found: "@ + p@,
            SystemError::RegistrationError(r) => "Registration error: "@ + r@,
            SystemError::ConfigError(r) => "Configuration error: "@ + r@,
            SystemError::Timeout(r) => "Operation timed out: "@ + r@,
            SystemError::WorkerStateError(r) => "Worker state error: "@ + r@,
            SystemError::Other(e) => "Internal system error: "@ + anyhow_display(e),
        }
    }

    /// The message text of the error.
    pub fn to_string(&self) -> (s: String)
        ensures
            s@ == self.text(),
    {
        match self {
            SystemError::ThreadSetupError(r) => join2("Thread setup error: ", r.as_str()),
            SystemError::NotRunning => String::from_str("Actor system is not running"),
            SystemError::ShuttingDown => String::from_str("Actor system is already shutting down"),
            SystemError::ShutdownError(r) => join2("Failed during shutdown: ", r.as_str()),
            SystemError::ActorCreationError(r) => join2("Actor creation failed: ", r.as_str()),
            SystemError::ActorNotFound(p) => join2("Actor not found: ", p.as_str()),
            SystemError::RegistrationError(r) => join2("Registration error: ", r.as_str()),
            SystemError::ConfigError(r) => join2("Configuration error: ", r.as_str()),
            SystemError::Timeout(r) => join2("Operation timed out: ", r.as_str()),
            SystemError::WorkerStateError(r) => join2("Worker state error: ", r.as_str()),
            SystemError::Other(e) => {
                let t = anyhow_to_string(e);
                join2("Internal system error: ", t.as_str())
            },
        }
    }
}

/// Errors related to supervision.
#[derive(Debug, Clone)]
pub enum SupervisorError {
    /// The restart limit of the actor at the path was exceeded.
    RestartLimitExceeded(String),
    /// Restarting the actor at the path failed for the reason.
    RestartFailed(String, String),
    /// Escalating the failure of the actor at the path failed.
    EscalationFailed(String),
}

impl SupervisorError {
    /// The message text of the error.
    pub open spec fn text(self) -> Seq<char> {
        match self {
            SupervisorError::RestartLimitExceeded(p) => "Restart limit exceeded for actor: "@ + p@,
            SupervisorError::RestartFailed(p, r) => "Failed to restart actor "@ + p@ + ": "@ + r@,
            SupervisorError::EscalationFailed(p) => "Escalation failed for actor: "@ + p@,
        }
    }

    /// The message text of the error.
    pub fn to_string(&self) -> (s: String)
        ensures
            s@ == self.text(),
    {
        match self {
            SupervisorError::RestartLimitExceeded(p) => join2("Restart limit exceeded for actor: ", p.as_str()),
            SupervisorError::RestartFailed(p, r) => join4("Failed to restart actor ", p.as_str(), ": ", r.as_str()),
            SupervisorError::EscalationFailed(p) => join2("Escalation failed for actor: ", p.as_str()),
        }
    }
}

} // verus!
