//! Actor processors: the lifecycle and message loop around one actor, and the
//! registry of processors by actor path.

pub mod processing;
pub mod command;
pub mod manager;

pub use self::processing::{ProcessorStatus, WorkerStats};
pub use self::manager::ActorProcessorManager;
