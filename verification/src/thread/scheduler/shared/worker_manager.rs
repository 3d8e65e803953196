//! Keeps track of the actors scheduled on the shared thread pool.

use vstd::prelude::*;
use crate::thread::config::ThreadActorConfig;
use crate::thread::error::SystemError;
use crate::thread::mailbox::Mailbox;
use crate::thread::registry::PathRegistry;
use crate::thread::scheduler::multi_thread::worker::requeued;
use crate::thread::scheduler::queue::SchedulingQueue;
use crate::thread::scheduler::shared::worker::{pool_run_len, run_pool_batch};

verus! {

/// The actors scheduled on the shared pool (with the configuration each was
/// scheduled with) and the queue of their ready mailboxes.
pub struct WorkerManager {
    processors: PathRegistry<Option<ThreadActorConfig>>,
    scheduling_queue: SchedulingQueue,
    max_messages_per_batch: usize,
}

impl WorkerManager {
    /// The scheduled actors, with the configuration each was scheduled with.
    pub closed spec fn scheduled(&self) -> Map<Seq<char>, Option<ThreadActorConfig>> {
        self.processors@
    }

    /// The handles of the ready mailboxes, oldest first.
    pub closed spec fn queued(&self) -> Seq<u64> {
        self.scheduling_queue@
    }

    /// The most messages handled from one mailbox in one batch.
    pub closed spec fn spec_max_messages_per_batch(&self) -> usize {
        self.max_messages_per_batch
    }

    /// The manager's consistency.
    pub closed spec fn wf(&self) -> bool {
        self.processors.wf()
    }

    /// A consistent manager schedules finitely many actors.
    pub proof fn lemma_finite(&self)
        requires
            self.wf(),
        ensures
            self.scheduled().dom().finite(),
    {
        self.processors.lemma_paths();
    }

    /// A manager with no scheduled actor, feeding `scheduling_queue`.
    pub fn new(scheduling_queue: SchedulingQueue, max_messages_per_batch: usize) -> (m: Self)
        ensures
            m.wf(),
            m.scheduled() == Map::<Seq<char>, Option<ThreadActorConfig>>::empty(),
            m.queued() == scheduling_queue@,
            m.spec_max_messages_per_batch() == max_messages_per_batch,
    {
        WorkerManager { processors: PathRegistry::new(), scheduling_queue, max_messages_per_batch }
    }

    /// Schedules the actor at `path`: its mailbox `mailbox` joins the queue of
    /// ready mailboxes and the actor is recorded as scheduled with `config`.
    /// This always succeeds.
    pub fn schedule_mailbox(&mut self, path: String, mailbox: u64, config: Option<ThreadActorConfig>) -> (r: Result<(), SystemError>)
        requires
            old(self).wf(),
        ensures
            final(self).wf(),
            r is Ok,
            final(self).queued() == old(self).queued().push(mailbox),
            final(self).scheduled() == old(self).scheduled().insert(path@, config),
            final(self).spec_max_messages_per_batch() == old(self).spec_max_messages_per_batch(),
    {
        self.scheduling_queue.push(mailbox);
        self.processors.insert(path, config);
        Ok(())
    }

    /// Stops the actor at `path`: it is no longer scheduled. An actor that is
    /// not scheduled gives `ActorNotFound`.
    pub fn stop_processor(&mut self, path: &str) -> (r: Result<(), SystemError>)
        requires
            old(self).wf(),
        ensures
            final(self).wf(),
            final(self).scheduled() == old(self).scheduled().remove(path@),
            final(self).queued() == old(self).queued(),
            final(self).spec_max_messages_per_batch() == old(self).spec_max_messages_per_batch(),
            old(self).scheduled().contains_key(path@) ==> r is Ok,
            !old(self).scheduled().contains_key(path@) ==> (r matches Err(SystemError::ActorNotFound(p)) && p@ == path@),
    {
        if self.processors.remove(path) {
            Ok(())
        } else {
            Err(SystemError::ActorNotFound(String::from_str(path)))
        }
    }

    /// Whether the actor at `path` is scheduled.
    pub fn is_scheduled(&self, path: &str) -> (b: bool)
        ensures
            b == self.scheduled().contains_key(path@),
    {
        self.processors.contains(path)
    }

    /// The number of scheduled actors.
    pub fn processor_count(&self) -> (n: usize)
        ensures
            n == self.scheduled().len(),
    {
        self.processors.len()
    }

    /// Takes the oldest ready mailbox, if any.
    pub fn next_ready(&mut self) -> (r: Option<u64>)
        requires
            old(self).wf(),
        ensures
            final(self).wf(),
            r == (if old(self).queued().len() > 0 { Some(old(self).queued()[0]) } else { None::<u64> }),
            final(self).queued() == (if old(self).queued().len() > 0 { old(self).queued().drop_first() } else { old(self).queued() }),
            final(self).scheduled() == old(self).scheduled(),
            final(self).spec_max_messages_per_batch() == old(self).spec_max_messages_per_batch(),
    {
        self.scheduling_queue.try_pop()
    }

    /// Puts the mailbox `mailbox` back at the end of the queue of ready mailboxes.
    pub fn requeue(&mut self, mailbox: u64)
        requires
            old(self).wf(),
        ensures
            final(self).wf(),
            final(self).queued() == old(self).queued().push(mailbox),
            final(self).scheduled() == old(self).scheduled(),
            final(self).spec_max_messages_per_batch() == old(self).spec_max_messages_per_batch(),
    {
        self.scheduling_queue.push(mailbox);
    }

    /// One run of a pool worker on the ready mailbox `handle` (see
    /// `run_pool_batch`): the ids taken, oldest first; the mailbox goes back to
    /// the end of the queue when messages are left in it.
    pub fn run_batch<M: Mailbox>(&mut self, handle: u64, mailbox: &mut M, shutting_down: bool) -> (taken: Vec<u64>)
        requires
            old(self).wf(),
            old(mailbox).well_formed(),
        ensures
            final(self).wf(),
            final(mailbox).well_formed(),
            taken@ == old(mailbox).model().queue.take(pool_run_len(old(mailbox).model().queue, shutting_down) as int),
            final(mailbox).model().queue == old(mailbox).model().queue.skip(taken@.len() as int),
            final(mailbox).model().capacity == old(mailbox).model().capacity,
            final(mailbox).model().closed == old(mailbox).model().closed,
            final(mailbox).model().path == old(mailbox).model().path,
            final(self).queued() == requeued(old(self).queued(), handle, final(mailbox).model().queue),
            final(self).scheduled() == old(self).scheduled(),
            final(self).spec_max_messages_per_batch() == old(self).spec_max_messages_per_batch(),
    {
        run_pool_batch(&mut self.scheduling_queue, handle, mailbox, shutting_down)
    }

    /// The number of ready mailboxes.
    pub fn queue_len(&self) -> (n: usize)
        ensures
            n == self.queued().len(),
    {
        self.scheduling_queue.len()
    }
}

} // verus!
