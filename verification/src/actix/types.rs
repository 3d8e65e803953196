//! Common types of the Actix-based backend.

use vstd::prelude::*;

verus! {

/// A unique identifier for an actor instance.
#[derive(Debug, Clone)]
pub struct ActorId(pub String);

impl ActorId {
    /// Creates a new `ActorId` with the given name.
    pub fn new(name: &str) -> (id: Self)
        ensures
            id.0@ == name@,
    {
        ActorId(String::from_str(name))
    }

    /// Returns the name of this actor.
    pub fn name(&self) -> (n: &str)
        ensures
            n@ == self.0@,
    {
        self.0.as_str()
    }

    /// The identifier's text, as it is displayed: its name.
    pub fn to_string(&self) -> (s: String)
        ensures
            s@ == self.0@,
    {
        self.0.clone()
    }
}

/// A message envelope: the id of the message it carries and the name of the
/// message's type.
#[derive(Debug)]
pub struct MessageEnvelope {
    /// The id of the message.
    pub message: u64,
    /// The name of the message type.
    pub message_type: &'static str,
}

/// An internal message to stop the actor.
#[derive(Debug)]
pub struct StopMessage;

/// Marker for the context type parameter of the backend's actors.
pub struct ActorContextData;

} // verus!
