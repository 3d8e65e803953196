//! Types shared with the Actix-based backend: actor identifiers, envelopes and
//! the wrapper used by the actor derive.

pub mod actor;
pub mod reference;
pub mod types;
