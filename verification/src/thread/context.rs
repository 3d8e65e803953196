//! The context an actor runs in: its own handle, its parent and children, its
//! supervision strategy, ask timeout and backpressure strategy.

use vstd::prelude::*;
use std::time::Duration;
use crate::thread::actor::ActorError;
use crate::thread::config::{BackpressureStrategy, SupervisorStrategy};
use crate::thread::registry::PathRegistry;
use crate::thread::time::{duration_from_secs, secs};

verus! {

/// The reason given when an actor's own handle is needed before it was set.
pub open spec fn self_ref_missing_text() -> Seq<char> {
    "Self reference not set"@
}

/// The reason given when a child is spawned after the system went away.
pub open spec fn system_gone_text() -> Seq<char> {
    "Actor system not available"@
}

/// The strategy `set_supervisor_strategy` installs, whatever it is given.
pub open spec fn installed_strategy() -> SupervisorStrategy {
    SupervisorStrategy::Restart { max_retries: 3, within: duration_from_secs(10) }
}

/// The execution context of one actor. Actors are referred to by handles
/// (`u64`) that their owner maps to the actual references.
pub struct ThreadContext {
    path: String,
    self_ref: Option<u64>,
    parent_ref: Option<u64>,
    children_refs: PathRegistry<u64>,
    supervisor_strategy: SupervisorStrategy,
    receive_timeout: Option<Duration>,
    backpressure_strategy: BackpressureStrategy,
}

impl ThreadContext {
    /// The actor's path.
    pub closed spec fn spec_path(&self) -> Seq<char> {
        self.path@
    }

    /// The actor's own handle, once set.
    pub closed spec fn spec_self_ref(&self) -> Option<u64> {
        self.self_ref
    }

    /// The parent's handle, if the actor has a parent.
    pub closed spec fn spec_parent(&self) -> Option<u64> {
        self.parent_ref
    }

    /// The children's handles, by path.
    pub closed spec fn children(&self) -> Map<Seq<char>, u64> {
        self.children_refs@
    }

    /// The strategy used to supervise the children.
    pub closed spec fn spec_supervisor_strategy(&self) -> SupervisorStrategy {
        self.supervisor_strategy
    }

    /// The timeout of the actor's asks, if one was set.
    pub closed spec fn spec_receive_timeout(&self) -> Option<Duration> {
        self.receive_timeout
    }

    /// The backpressure strategy of the actor's sends.
    pub closed spec fn spec_backpressure_strategy(&self) -> BackpressureStrategy {
        self.backpressure_strategy
    }

    /// The context's consistency.
    pub closed spec fn wf(&self) -> bool {
        self.children_refs.wf()
    }

    /// A consistent context has finitely many children.
    pub proof fn lemma_finite(&self)
        requires
            self.wf(),
        ensures
            self.children().dom().finite(),
    {
        self.children_refs.lemma_paths();
    }

    /// A context for the actor at `path` with the parent `parent_ref`,
    /// supervising its children with `supervisor_strategy`: no own handle yet,
    /// no children, no ask timeout and blocking backpressure.
    pub fn new(path: String, parent_ref: Option<u64>, supervisor_strategy: SupervisorStrategy) -> (c: Self)
        ensures
            c.wf(),
            c.spec_path() == path@,
            c.spec_self_ref() is None,
            c.spec_parent() == parent_ref,
            c.children() == Map::<Seq<char>, u64>::empty(),
            c.spec_supervisor_strategy() == supervisor_strategy,
            c.spec_receive_timeout() is None,
            c.spec_backpressure_strategy() == BackpressureStrategy::Block,
    {
        ThreadContext {
            path,
            self_ref: None,
            parent_ref,
            children_refs: PathRegistry::new(),
            supervisor_strategy,
            receive_timeout: None,
            backpressure_strategy: BackpressureStrategy::Block,
        }
    }

    /// Sets the actor's own handle.
    pub fn set_self_ref(&mut self, actor_ref: u64)
        ensures
            final(self).spec_self_ref() == Some(actor_ref),
            final(self).spec_path() == old(self).spec_path(),
            final(self).spec_parent() == old(self).spec_parent(),
            final(self).children() == old(self).children(),
            final(self).spec_supervisor_strategy() == old(self).spec_supervisor_strategy(),
            final(self).spec_receive_timeout() == old(self).spec_receive_timeout(),
            final(self).spec_backpressure_strategy() == old(self).spec_backpressure_strategy(),
            final(self).wf() == old(self).wf(),
    {
        self.self_ref = Some(actor_ref);
    }

    /// Records the child at `path` with handle `child_ref` (replacing any child at that path).
    pub fn add_child(&mut self, path: String, child_ref: u64)
        requires
            old(self).wf(),
        ensures
            final(self).wf(),
            final(self).children() == old(self).children().insert(path@, child_ref),
            final(self).spec_self_ref() == old(self).spec_self_ref(),
            final(self).spec_path() == old(self).spec_path(),
            final(self).spec_parent() == old(self).spec_parent(),
            final(self).spec_supervisor_strategy() == old(self).spec_supervisor_strategy(),
            final(self).spec_receive_timeout() == old(self).spec_receive_timeout(),
            final(self).spec_backpressure_strategy() == old(self).spec_backpressure_strategy(),
    {
        self.children_refs.insert(path, child_ref);
    }

    /// Forgets the child at `path`; answers its handle, if it was a child.
    pub fn remove_child(&mut self, path: &str) -> (r: Option<u64>)
        requires
            old(self).wf(),
        ensures
            final(self).wf(),
            r == (if old(self).children().contains_key(path@) { Some(old(self).children()[path@]) } else { None::<u64> }),
            final(self).children() == old(self).children().remove(path@),
            final(self).spec_self_ref() == old(self).spec_self_ref(),
            final(self).spec_path() == old(self).spec_path(),
            final(self).spec_parent() == old(self).spec_parent(),
            final(self).spec_supervisor_strategy() == old(self).spec_supervisor_strategy(),
            final(self).spec_receive_timeout() == old(self).spec_receive_timeout(),
            final(self).spec_backpressure_strategy() == old(self).spec_backpressure_strategy(),
    {
        let r = match self.children_refs.get(path) {
            Some(h) => Some(*h),
            None => None,
        };
        self.children_refs.remove(path);
        r
    }

    /// Whether the actor at `path` is a child.
    pub fn has_child(&self, path: &str) -> (b: bool)
        ensures
            b == self.children().contains_key(path@),
    {
        self.children_refs.contains(path)
    }

    /// Sets the backpressure strategy of the actor's sends.
    pub fn set_backpressure_strategy(&mut self, strategy: BackpressureStrategy)
        ensures
            final(self).spec_backpressure_strategy() == strategy,
            final(self).spec_self_ref() == old(self).spec_self_ref(),
            final(self).spec_path() == old(self).spec_path(),
            final(self).spec_parent() == old(self).spec_parent(),
            final(self).children() == old(self).children(),
            final(self).spec_supervisor_strategy() == old(self).spec_supervisor_strategy(),
            final(self).spec_receive_timeout() == old(self).spec_receive_timeout(),
            final(self).wf() == old(self).wf(),
    {
        self.backpressure_strategy = strategy;
    }

    /// The backpressure strategy of the actor's sends.
    pub fn backpressure_strategy(&self) -> (s: BackpressureStrategy)
        ensures
            s == self.spec_backpressure_strategy(),
    {
        self.backpressure_strategy
    }

    /// The actor's own handle; it must have been set.
    pub fn get_self_ref(&self) -> (r: u64)
        requires
            self.spec_self_ref() is Some,
        ensures
            Some(r) == self.spec_self_ref(),
    {
        match self.self_ref {
            Some(r) => r,
            None => 0,
        }
    }

    /// What stopping the actor involves: its own handle first, then every
    /// child's. Without an own handle it fails with "Self reference not set".
    pub fn stop(&self) -> (r: Result<(u64, Vec<u64>), ActorError>)
        requires
            self.wf(),
        ensures
            self.spec_self_ref() is None ==> (r matches Err(ActorError::Other(t)) && t@ == self_ref_missing_text()),
            self.spec_self_ref() is Some ==> {
                &&& r is Ok
                &&& Some(r->Ok_0.0) == self.spec_self_ref()
                &&& r->Ok_0.1@.to_set() == self.children().values()
                &&& r->Ok_0.1@.len() == self.children().len()
            },
    {
        match self.self_ref {
            Some(me) => Ok((me, self.children_refs.value_list())),
            None => Err(ActorError::Other(String::from_str("Self reference not set"))),
        }
    }

    /// The children's handles, one per child.
    pub fn children_handles(&self) -> (r: Vec<u64>)
        requires
            self.wf(),
        ensures
            r@.to_set() == self.children().values(),
            r@.len() == self.children().len(),
    {
        self.children_refs.value_list()
    }

    /// The parent's handle, if the actor has a parent.
    pub fn parent(&self) -> (r: Option<u64>)
        ensures
            r == self.spec_parent(),
    {
        self.parent_ref
    }

    /// Sets (or, with `None`, clears) the timeout of the actor's asks.
    pub fn set_receive_timeout(&mut self, timeout: Option<Duration>)
        ensures
            final(self).spec_receive_timeout() == timeout,
            final(self).spec_self_ref() == old(self).spec_self_ref(),
            final(self).spec_path() == old(self).spec_path(),
            final(self).spec_parent() == old(self).spec_parent(),
            final(self).children() == old(self).children(),
            final(self).spec_supervisor_strategy() == old(self).spec_supervisor_strategy(),
            final(self).spec_backpressure_strategy() == old(self).spec_backpressure_strategy(),
            final(self).wf() == old(self).wf(),
    {
        self.receive_timeout = timeout;
    }

    /// The timeout of the actor's asks, if one was set.
    pub fn receive_timeout(&self) -> (r: Option<Duration>)
        ensures
            r == self.spec_receive_timeout(),
    {
        self.receive_timeout
    }

    /// The timeout an ask of this actor waits: its own, else the system's
    /// default (`system_default`, when the system is still there), else 5 s.
    pub fn ask_timeout(&self, system_default: Option<Duration>) -> (d: Duration)
        ensures
            d == match self.spec_receive_timeout() {
                Some(t) => t,
                None => match system_default {
                    Some(t) => t,
                    None => duration_from_secs(5),
                },
            },
    {
        match self.receive_timeout {
            Some(t) => t,
            None => match system_default {
                Some(t) => t,
                None => secs(5),
            },
        }
    }

    /// Installs a supervision strategy for the children: whatever strategy is
    /// asked for, the one installed restarts a child at most 3 times within 10 s.
    pub fn set_supervisor_strategy(&mut self)
        ensures
            final(self).spec_supervisor_strategy() == installed_strategy(),
            final(self).spec_self_ref() == old(self).spec_self_ref(),
            final(self).spec_path() == old(self).spec_path(),
            final(self).spec_parent() == old(self).spec_parent(),
            final(self).children() == old(self).children(),
            final(self).spec_receive_timeout() == old(self).spec_receive_timeout(),
            final(self).spec_backpressure_strategy() == old(self).spec_backpressure_strategy(),
            final(self).wf() == old(self).wf(),
    {
        self.supervisor_strategy = SupervisorStrategy::Restart { max_retries: 3, within: secs(10) };
    }

    /// The strategy used to supervise the children.
    pub fn supervisor_strategy(&self) -> (s: SupervisorStrategy)
        ensures
            s == self.spec_supervisor_strategy(),
    {
        self.supervisor_strategy
    }

    /// The actor's path.
    pub fn path(&self) -> (p: &String)
        ensures
            p@ == self.spec_path(),
    {
        &self.path
    }

    /// The strategy a child spawned from this context is supervised with: the
    /// context's own. When the system is gone (`system_available` is false)
    /// spawning fails with "Actor system not available".
    pub fn spawn_strategy(&self, system_available: bool) -> (r: Result<SupervisorStrategy, ActorError>)
        ensures
            system_available ==> r == Ok::<SupervisorStrategy, ActorError>(self.spec_supervisor_strategy()),
            !system_available ==> (r matches Err(ActorError::Other(t)) && t@ == system_gone_text()),
    {
        if system_available {
            Ok(self.supervisor_strategy)
        } else {
            Err(ActorError::Other(String::from_str("Actor system not available")))
        }
    }
}

} // verus!
