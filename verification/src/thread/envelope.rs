//! Control messages used inside the actor system.

use vstd::prelude::*;

verus! {

/// Control messages used internally within the actor system.
#[derive(Debug, Clone)]
pub enum ControlMessage {
    /// Start processing messages (from `Starting` to `Running`).
    Start,
    /// Stop the actor (graceful shutdown).
    Stop,
    /// A child actor failed.
    ChildFailure {
        /// Path of the failed child actor.
        path: String,
        /// Reason for the failure.
        reason: String,
    },
    /// The system is shutting down: stop gracefully.
    SystemShutdown,
    /// Ask for the actor's state.
    HealthCheck,
}

} // verus!
