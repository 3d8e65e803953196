//! Thread-based actor system.

pub mod actor;
pub mod address;
pub mod config;
pub mod context;
pub mod envelope;
pub mod error;
pub mod mailbox;
pub mod processor;
pub mod registry;
pub mod scheduler;
pub mod system;
pub mod text;
pub mod time;
