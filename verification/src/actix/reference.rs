//! References to actors of the Actix-based backend.

use vstd::prelude::*;

verus! {

/// An internal message to stop the referenced actor.
#[derive(Debug)]
pub struct StopMessage;

} // verus!
