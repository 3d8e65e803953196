//! The wrapper used by the actor derive.

use vstd::prelude::*;

verus! {

/// A wrapper around a user-defined actor, used by the actor derive.
pub struct ActorBase<A> {
    /// The wrapped actor.
    pub actor: A,
}

impl<A> ActorBase<A> {
    /// Wraps `actor`.
    pub fn new(actor: A) -> (b: Self)
        ensures
            b.actor == actor,
    {
        ActorBase { actor }
    }
}

/// Conversion of a user actor into an `ActorBase`, implemented by the actor derive.
pub trait IntoActorBase: Sized {
    /// Wraps `self` in an `ActorBase`.
    fn into_actor_base(self) -> ActorBase<Self>;
}

} // verus!
