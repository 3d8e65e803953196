//! A registry of named actor systems with a default one: where actors are
//! spawned, in which order systems are searched for an actor, and how the
//! results of shutting every system down are reported.

use vstd::prelude::*;
use crate::thread::error::{anyhow_display, anyhow_msg, SystemError};
use crate::thread::registry::{views, PathRegistry};
use crate::thread::text::join2;

verus! {

/// The text of the error for an unknown system.
pub open spec fn system_not_found_text(name: Seq<char>) -> Seq<char> {
    "System not found: "@ + name
}

/// The text of the error when no default system was chosen.
pub open spec fn no_default_text() -> Seq<char> {
    "No default system registered"@
}

/// The report of one system that failed to shut down.
pub open spec fn shutdown_failure_text(name: Seq<char>, reason: Seq<char>) -> Seq<char> {
    "Failed to shut down system "@ + name + ": "@ + reason
}

/// `parts` joined with `sep` between each two.
pub open spec fn joined(parts: Seq<Seq<char>>, sep: Seq<char>) -> Seq<char>
    decreases parts.len(),
{
    if parts.len() == 0 {
        Seq::empty()
    } else if parts.len() == 1 {
        parts[0]
    } else {
        joined(parts.drop_last(), sep) + sep + parts.last()
    }
}

/// The names in `names` other than `d`, in order.
pub open spec fn others(names: Seq<Seq<char>>, d: Seq<char>) -> Seq<Seq<char>> {
    names.filter(|n: Seq<char>| n != d)
}

/// The reports of the failed shutdowns, in order.
pub open spec fn failure_reports(failures: Seq<(String, String)>) -> Seq<Seq<char>> {
    failures.map_values(|f: (String, String)| shutdown_failure_text(f.0@, f.1@))
}

/// Named actor systems, one of which may be the default.
#[verifier::reject_recursive_types(S)]
pub struct ParrotActorSystem<S> {
    systems: PathRegistry<S>,
    default_system: Option<String>,
}

impl<S> ParrotActorSystem<S> {
    /// The registered systems, by name.
    pub closed spec fn systems(&self) -> Map<Seq<char>, S> {
        self.systems@
    }

    /// The registered names, in the order they were first registered.
    pub closed spec fn names(&self) -> Seq<Seq<char>> {
        self.systems.paths()
    }

    /// The name of the default system, if one was chosen.
    pub closed spec fn default_name(&self) -> Option<Seq<char>> {
        match self.default_system {
            Some(n) => Some(n@),
            None => None,
        }
    }

    /// The registry's consistency: the default system is a registered one.
    pub closed spec fn wf(&self) -> bool {
        &&& self.systems.wf()
        &&& match self.default_system {
            Some(n) => self.systems@.contains_key(n@),
            None => true,
        }
    }

    /// A consistent registry holds finitely many systems, one per listed name.
    pub proof fn lemma_finite(&self)
        requires
            self.wf(),
        ensures
            self.systems().dom().finite(),
            self.names().to_set() == self.systems().dom(),
            self.names().no_duplicates(),
            self.names().len() == self.systems().len(),
    {
        self.systems.lemma_paths();
    }

    /// An empty registry with no default system.
    pub fn new() -> (r: Self)
        ensures
            r.wf(),
            r.systems() == Map::<Seq<char>, S>::empty(),
            r.names() == Seq::<Seq<char>>::empty(),
            r.default_name() is None,
    {
        ParrotActorSystem { systems: PathRegistry::new(), default_system: None }
    }

    /// Registers `system` under `name` (replacing any system of that name). It
    /// becomes the default when `set_as_default` is set or when there was no
    /// default yet. This always succeeds.
    pub fn register_system(&mut self, name: String, system: S, set_as_default: bool) -> (r: Result<(), SystemError>)
        requires
            old(self).wf(),
        ensures
            final(self).wf(),
            r is Ok,
            final(self).systems() == old(self).systems().insert(name@, system),
            final(self).default_name() == (if set_as_default || old(self).default_name() is None { Some(name@) } else { old(self).default_name() }),
            final(self).names() == (if old(self).systems().contains_key(name@) { old(self).names() } else { old(self).names().push(name@) }),
    {
        let make_default = set_as_default || self.default_system.is_none();
        if make_default {
            self.default_system = Some(name.clone());
        }
        self.systems.insert(name, system);
        Ok(())
    }

    /// Makes the system `name` the default; an unknown name gives "System not found".
    pub fn set_default_system(&mut self, name: &str) -> (r: Result<(), SystemError>)
        requires
            old(self).wf(),
        ensures
            final(self).wf(),
            final(self).systems() == old(self).systems(),
            final(self).names() == old(self).names(),
            old(self).systems().contains_key(name@) ==> r is Ok && final(self).default_name() == Some(name@),
            !old(self).systems().contains_key(name@) ==> {
                &&& r matches Err(SystemError::Other(a)) && anyhow_display(a) == system_not_found_text(name@)
                &&& final(self).default_name() == old(self).default_name()
            },
    {
        if !self.systems.contains(name) {
            return Err(SystemError::Other(anyhow_msg(join2("System not found: ", name))));
        }
        self.default_system = Some(String::from_str(name));
        Ok(())
    }

    /// The name of the default system; without one, "No default system registered".
    pub fn get_default_system_name(&self) -> (r: Result<String, SystemError>)
        ensures
            self.default_name() matches Some(n) ==> (r matches Ok(s) && s@ == n),
            self.default_name() is None ==> (r matches Err(SystemError::Other(a)) && anyhow_display(a) == no_default_text()),
    {
        match &self.default_system {
            Some(n) => Ok(n.clone()),
            None => Err(SystemError::Other(anyhow_msg(String::from_str("No default system registered")))),
        }
    }

    /// The system registered as `name`; an unknown name gives "System not found".
    pub fn get_system_impl(&self, name: &str) -> (r: Result<&S, SystemError>)
        ensures
            self.systems().contains_key(name@) ==> (r matches Ok(s) && *s == self.systems()[name@]),
            !self.systems().contains_key(name@) ==> (r matches Err(SystemError::Other(a)) && anyhow_display(a) == system_not_found_text(name@)),
    {
        match self.systems.get(name) {
            Some(s) => Ok(s),
            None => Err(SystemError::Other(anyhow_msg(join2("System not found: ", name)))),
        }
    }

    /// The system actors are spawned in: the default one.
    pub fn spawn_target(&self) -> (r: Result<&S, SystemError>)
        requires
            self.wf(),
        ensures
            self.default_name() matches Some(n) ==> (r matches Ok(s) && *s == self.systems()[n]),
            self.default_name() is None ==> (r matches Err(SystemError::Other(a)) && anyhow_display(a) == no_default_text()),
    {
        match self.get_default_system_name() {
            Ok(name) => self.get_system_impl(name.as_str()),
            Err(e) => Err(e),
        }
    }

    /// The names of the registered systems. This always succeeds.
    pub fn list_registered_systems(&self) -> (r: Result<Vec<String>, SystemError>)
        requires
            self.wf(),
        ensures
            r matches Ok(v) && views(v@) == self.names(),
    {
        Ok(self.systems.path_list())
    }

    /// The order in which the systems are searched for an actor: the default
    /// system first, then every other one in registration order.
    pub fn lookup_order(&self) -> (r: Vec<String>)
        requires
            self.wf(),
        ensures
            views(r@) == match self.default_name() {
                Some(d) => seq![d] + others(self.names(), d),
                None => self.names(),
            },
    {
        let names = self.systems.path_list();
        match &self.default_system {
            None => names,
            Some(d) => {
                let mut r: Vec<String> = Vec::new();
                r.push(d.clone());
                let ghost pred = |n: Seq<char>| n != d@;
                proof {
                    assert(views(r@) =~= seq![d@]);
                    assert(views(names@).take(0).filter(pred) =~= Seq::<Seq<char>>::empty()) by {
                        reveal_with_fuel(Seq::filter, 1);
                    }
                    assert(views(r@) =~= seq![d@] + views(names@).take(0).filter(pred));
                }
                let mut i: usize = 0;
                while i < names.len()
                    invariant
                        i <= names@.len(),
                        views(names@) == self.names(),
                        pred == (|n: Seq<char>| n != d@),
                        views(r@) == seq![d@] + views(names@).take(i as int).filter(pred),
                    decreases names.len() - i,
                {
                    let ghost before = views(names@).take(i as int);
                    let ghost after = views(names@).take(i + 1);
                    let ghost prev = views(r@);
                    proof {
                        assert(after.drop_last() =~= before);
                        assert(after.last() == names@[i as int]@);
                        reveal_with_fuel(Seq::filter, 1);
                        assert(after.filter(pred) == (if pred(after.last()) {
                            before.filter(pred).push(after.last())
                        } else {
                            before.filter(pred)
                        }));
                    }
                    if names[i] != *d {
                        r.push(names[i].clone());
                        proof {
                            assert(views(r@) =~= prev.push(names@[i as int]@));
                            assert(views(r@) =~= seq![d@] + after.filter(pred));
                        }
                    } else {
                        proof {
                            assert(views(r@) =~= seq![d@] + after.filter(pred));
                        }
                    }
                    i = i + 1;
                }
                proof {
                    assert(views(names@).take(i as int) =~= views(names@));
                    assert(views(r@) == seq![d@] + others(self.names(), d@));
                }
                r
            },
        }
    }
}

/// Whatever sequence of registrations and choices of default was made, the
/// default system, when there is one, is a registered system.
pub proof fn law_default_is_registered<S>(r: &ParrotActorSystem<S>)
    requires
        r.wf(),
    ensures
        r.default_name() matches Some(n) ==> r.systems().contains_key(n),
{
}

/// The result of shutting every system down, given the systems that failed
/// (their names and reasons, in order): success when none failed, otherwise
/// one error whose text joins their reports with "; ".
pub fn shutdown_result(failures: &Vec<(String, String)>) -> (r: Result<(), SystemError>)
    ensures
        failures@.len() == 0 ==> r is Ok,
        failures@.len() > 0 ==> (r matches Err(SystemError::Other(a)) && anyhow_display(a) == joined(failure_reports(failures@), "; "@)),
{
    if failures.len() == 0 {
        return Ok(());
    }
    let mut text = String::new();
    let mut i: usize = 0;
    while i < failures.len()
        invariant
            0 < failures@.len(),
            i <= failures@.len(),
            text@ == joined(failure_reports(failures@).take(i as int), "; "@),
        decreases failures.len() - i,
    {
        let head = join2("Failed to shut down system ", failures[i].0.as_str());
        let report = crate::thread::text::join3(head.as_str(), ": ", failures[i].1.as_str());
        let ghost before = failure_reports(failures@).take(i as int);
        proof {
            assert(failure_reports(failures@).take(i + 1) =~= before.push(report@));
            assert(before.push(report@).drop_last() =~= before);
        }
        if i > 0 {
            text.append("; ");
        }
        text.append(report.as_str());
        i = i + 1;
    }
    proof {
        assert(failure_reports(failures@).take(failures@.len() as int) =~= failure_reports(failures@));
    }
    Err(SystemError::Other(anyhow_msg(text)))
}

} // verus!
