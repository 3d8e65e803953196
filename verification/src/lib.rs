//! Parrot: a thread-based actor runtime whose scheduling, mailbox and
//! lifecycle rules are stated and proved with Verus.

pub mod actix;
pub mod logging;
pub mod system;
pub mod thread;
