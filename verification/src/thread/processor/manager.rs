//! The registry of actor processors by actor path.

use vstd::prelude::*;
use crate::thread::processor::processing::ProcessorStatus;
use crate::thread::registry::{views, PathRegistry};

verus! {

/// What the manager keeps of a processor: the handle by which its owner finds
/// it again, and its current status.
#[derive(Debug, Clone, Copy, PartialEq, Eq, Structural)]
pub struct ProcessorEntry {
    /// The handle of the processor.
    pub handle: u64,
    /// The processor's current status.
    pub status: ProcessorStatus,
}

/// Manager of the actor processors of a system, keyed by actor path.
pub struct ActorProcessorManager {
    processors: PathRegistry<ProcessorEntry>,
}

impl View for ActorProcessorManager {
    type V = Map<Seq<char>, ProcessorEntry>;

    closed spec fn view(&self) -> Map<Seq<char>, ProcessorEntry> {
        self.processors@
    }
}

impl ActorProcessorManager {
    /// The manager's consistency.
    pub closed spec fn wf(&self) -> bool {
        self.processors.wf()
    }

    /// A consistent manager holds finitely many processors, one per listed path.
    pub proof fn lemma_finite(&self)
        requires
            self.wf(),
        ensures
            self@.dom().finite(),
            self.paths().to_set() == self@.dom(),
            self.paths().len() == self@.len(),
    {
        self.processors.lemma_paths();
    }

    /// The registered paths, in the order they were first registered.
    pub closed spec fn paths(&self) -> Seq<Seq<char>> {
        self.processors.paths()
    }

    /// The registered paths are exactly the paths that have a processor.
    pub proof fn lemma_paths(&self)
        requires
            self.wf(),
        ensures
            self.paths().no_duplicates(),
            self.paths().to_set() == self@.dom(),
            self.paths().len() == self@.len(),
    {
        self.processors.lemma_paths();
    }

    /// A manager with no processor.
    pub fn new() -> (m: Self)
        ensures
            m.wf(),
            m@ == Map::<Seq<char>, ProcessorEntry>::empty(),
    {
        ActorProcessorManager { processors: PathRegistry::new() }
    }

    /// Registers the processor `entry` for the actor at `path`, replacing any
    /// processor registered there.
    pub fn register_processor(&mut self, path: String, entry: ProcessorEntry)
        requires
            old(self).wf(),
        ensures
            final(self).wf(),
            final(self)@ == old(self)@.insert(path@, entry),
    {
        self.processors.insert(path, entry);
    }

    /// The processor registered for the actor at `path`, if any.
    pub fn get_processor_by_path(&self, path: &str) -> (r: Option<ProcessorEntry>)
        ensures
            r == (if self@.contains_key(path@) { Some(self@[path@]) } else { None::<ProcessorEntry> }),
    {
        match self.processors.get(path) {
            Some(e) => Some(*e),
            None => None,
        }
    }

    /// Whether a processor is registered for the actor at `path`.
    pub fn has_processor(&self, path: &str) -> (b: bool)
        ensures
            b == self@.contains_key(path@),
    {
        self.processors.contains(path)
    }

    /// Records the status of the processor at `path`; answers whether one is registered there.
    pub fn set_processor_status(&mut self, path: &str, status: ProcessorStatus) -> (b: bool)
        requires
            old(self).wf(),
        ensures
            final(self).wf(),
            b == old(self)@.contains_key(path@),
            b ==> final(self)@ == old(self)@.insert(path@, ProcessorEntry { status, ..old(self)@[path@] }),
            !b ==> final(self)@ == old(self)@,
    {
        match self.processors.get(path) {
            Some(e) => {
                let entry = ProcessorEntry { status, ..*e };
                self.processors.insert(String::from_str(path), entry);
                true
            },
            None => false,
        }
    }

    /// Unregisters the processor of the actor at `path`; answers whether one was registered.
    pub fn remove_processor(&mut self, path: &str) -> (b: bool)
        requires
            old(self).wf(),
        ensures
            final(self).wf(),
            b == old(self)@.contains_key(path@),
            final(self)@ == old(self)@.remove(path@),
    {
        self.processors.remove(path)
    }

    /// The number of registered processors.
    pub fn processor_count(&self) -> (n: usize)
        ensures
            n == self@.len(),
    {
        self.processors.len()
    }

    /// The paths of all registered processors, in the order they were first registered.
    pub fn get_all_processor_paths(&self) -> (r: Vec<String>)
        requires
            self.wf(),
        ensures
            views(r@) == self.paths(),
    {
        self.processors.path_list()
    }

    /// The registry of processors itself.
    pub fn processors_ref(&self) -> (r: &PathRegistry<ProcessorEntry>)
        ensures
            r@ == self@,
            r.paths() == self.paths(),
            self.wf() ==> r.wf(),
    {
        &self.processors
    }

    /// The registry of processors itself, to change in place: whatever is
    /// registered or removed through it is registered or removed in the manager.
    pub fn processors_mut(&mut self) -> (r: &mut PathRegistry<ProcessorEntry>)
        ensures
            (*r)@ == old(self)@,
            r.paths() == old(self).paths(),
            r.wf() == old(self).wf(),
            final(self)@ == (*final(r))@,
            final(self).paths() == final(r).paths(),
            final(self).wf() == final(r).wf(),
    {
        &mut self.processors
    }

    /// The paths of the processors whose status is `status`, in registration order.
    pub fn find_processors_with_status(&self, status: ProcessorStatus) -> (r: Vec<String>)
        requires
            self.wf(),
        ensures
            views(r@) == self.paths().filter(|p: Seq<char>| self@[p].status == status),
    {
        let paths = self.processors.path_list();
        let ghost pred = |p: Seq<char>| self@[p].status == status;
        let mut r: Vec<String> = Vec::new();
        let mut i: usize = 0;
        proof {
            self.processors.lemma_paths();
        }
        while i < paths.len()
            invariant
                i <= paths.len(),
                views(paths@) == self.paths(),
                self.paths().to_set() == self@.dom(),
                views(r@) == views(paths@).take(i as int).filter(pred),
                pred == (|p: Seq<char>| self@[p].status == status),
            decreases paths.len() - i,
        {
            let ghost before = views(paths@).take(i as int);
            let ghost after = views(paths@).take(i + 1);
            proof {
                assert(after.drop_last() =~= before);
                assert(after.last() == paths@[i as int]@);
                assert(self.paths().to_set().contains(self.paths()[i as int]));
            }
            match self.processors.get(paths[i].as_str()) {
                Some(e) => {
                    if e.status == status {
                        r.push(paths[i].clone());
                        proof {
                            assert(views(r@) =~= before.filter(pred).push(paths@[i as int]@));
                        }
                    }
                },
                None => {},
            }
            proof {
                reveal_with_fuel(Seq::filter, 1);
                assert(after.filter(pred) == (if pred(after.last()) {
                    before.filter(pred).push(after.last())
                } else {
                    before.filter(pred)
                }));
            }
            i = i + 1;
        }
        assert(views(paths@).take(paths.len() as int) =~= views(paths@));
        r
    }
}

} // verus!
