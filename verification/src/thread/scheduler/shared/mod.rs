//! The shared thread pool: a fixed number of workers take ready mailboxes from
//! one scheduling queue and handle a batch of each one's messages.

pub mod pool;
pub mod worker;
pub mod worker_manager;

pub use self::pool::{SharedThreadPool, SharedThreadPoolConfig};
