//! A map from actor paths to values that also lists its paths.

use vstd::prelude::*;
use vstd::hash_map::StringHashMap;

verus! {

/// The paths of a list of strings.
pub open spec fn views(keys: Seq<String>) -> Seq<Seq<char>> {
    keys.map_values(|s: String| s@)
}

/// A map from actor paths to values, remembering the order in which paths were
/// first registered so that they can be listed.
#[verifier::reject_recursive_types(V)]
pub struct PathRegistry<V> {
    map: StringHashMap<V>,
    keys: Vec<String>,
}

impl<V> View for PathRegistry<V> {
    type V = Map<Seq<char>, V>;

    closed spec fn view(&self) -> Map<Seq<char>, V> {
        self.map@
    }
}

impl<V> PathRegistry<V> {
    /// The registered paths, in the order they were first registered.
    pub closed spec fn paths(&self) -> Seq<Seq<char>> {
        views(self.keys@)
    }

    /// The registry's consistency: each registered path is listed exactly once.
    pub closed spec fn wf(&self) -> bool {
        &&& self.paths().no_duplicates()
        &&& forall|k: Seq<char>| #[trigger] self.map@.contains_key(k) <==> self.paths().contains(k)
    }

    /// Every path listed is registered and every registered path is listed once.
    pub proof fn lemma_paths(&self)
        requires
            self.wf(),
        ensures
            self.paths().no_duplicates(),
            forall|k: Seq<char>| #[trigger] self@.contains_key(k) <==> self.paths().contains(k),
            self.paths().to_set() == self@.dom(),
            self.paths().len() == self@.len(),
    {
        assert(self.paths().to_set() =~= self@.dom());
        self.paths().unique_seq_to_set();
    }

    /// An empty registry.
    pub fn new() -> (r: Self)
        ensures
            r.wf(),
            r@ == Map::<Seq<char>, V>::empty(),
            r.paths() == Seq::<Seq<char>>::empty(),
    {
        let r = PathRegistry { map: StringHashMap::new(), keys: Vec::new() };
        assert(r.paths() =~= Seq::<Seq<char>>::empty());
        r
    }

    /// The number of registered paths.
    pub fn len(&self) -> (n: usize)
        ensures
            n == self@.len(),
    {
        self.map.len()
    }

    /// Whether `path` is registered.
    pub fn contains(&self, path: &str) -> (b: bool)
        ensures
            b == self@.contains_key(path@),
    {
        self.map.contains_key(path)
    }

    /// The value registered at `path`, if any.
    pub fn get(&self, path: &str) -> (r: Option<&V>)
        ensures
            match r {
                Some(v) => self@.contains_key(path@) && *v == self@[path@],
                None => !self@.contains_key(path@),
            },
    {
        self.map.get(path)
    }

    /// The position of `path` in the list of paths.
    fn position(&self, path: &String) -> (r: Option<usize>)
        requires
            self.wf(),
        ensures
            match r {
                Some(i) => i < self.keys.len() && self.paths()[i as int] == path@,
                None => !self.paths().contains(path@),
            },
    {
        let mut i: usize = 0;
        while i < self.keys.len()
            invariant
                i <= self.keys.len(),
                forall|j: int| 0 <= j < i ==> self.paths()[j] != path@,
            decreases self.keys.len() - i,
        {
            if self.keys[i] == *path {
                return Some(i);
            }
            i = i + 1;
        }
        None
    }

    /// Registers `value` at `path`, replacing any value registered there. A new
    /// path goes to the end of the list of paths.
    pub fn insert(&mut self, path: String, value: V)
        requires
            old(self).wf(),
        ensures
            final(self).wf(),
            final(self)@ == old(self)@.insert(path@, value),
            old(self)@.contains_key(path@) ==> final(self).paths() == old(self).paths(),
            !old(self)@.contains_key(path@) ==> final(self).paths() == old(self).paths().push(path@),
    {
        if !self.map.contains_key(path.as_str()) {
            let key = path.clone();
            self.keys.push(key);
            proof {
                assert(views(self.keys@) =~= views(old(self).keys@).push(path@));
                assert(!views(old(self).keys@).contains(path@));
            }
        }
        self.map.insert(path, value);
        proof {
            assert forall|k: Seq<char>| #[trigger] self.map@.contains_key(k) <==> self.paths().contains(k) by {
                if k != path@ {
                    if old(self).paths().contains(k) {
                        let j = choose|j: int| 0 <= j < old(self).paths().len() && old(self).paths()[j] == k;
                        assert(self.paths()[j] == k);
                    }
                } else {
                    if !old(self)@.contains_key(path@) {
                        assert(self.paths()[self.paths().len() - 1] == path@);
                    }
                }
            }
        }
    }

    /// Unregisters `path`; answers whether it was registered.
    pub fn remove(&mut self, path: &str) -> (b: bool)
        requires
            old(self).wf(),
        ensures
            final(self).wf(),
            b == old(self)@.contains_key(path@),
            final(self)@ == old(self)@.remove(path@),
    {
        let key = String::from_str(path);
        match self.position(&key) {
            Some(i) => {
                let ghost before = self.paths();
                self.keys.remove(i);
                self.map.remove(path);
                proof {
                    let after = before.remove(i as int);
                    assert(self.paths() =~= after);
                    assert forall|a: int, b: int| 0 <= a < b < after.len() implies after[a] != after[b] by {
                        let a2 = if a < i { a } else { a + 1 };
                        let b2 = if b < i { b } else { b + 1 };
                        assert(after[a] == before[a2]);
                        assert(after[b] == before[b2]);
                    }
                    assert forall|k: Seq<char>| #[trigger] self.map@.contains_key(k) <==> after.contains(k) by {
                        if after.contains(k) {
                            let j = choose|j: int| 0 <= j < after.len() && after[j] == k;
                            let j2 = if j < i { j } else { j + 1 };
                            assert(before[j2] == k);
                            assert(j2 != i);
                        }
                        if self.map@.contains_key(k) {
                            assert(before.contains(k));
                            let j = choose|j: int| 0 <= j < before.len() && before[j] == k;
                            assert(j != i);
                            let j2 = if j < i { j } else { j - 1 };
                            assert(after[j2] == k);
                        }
                    }
                }
                true
            },
            None => {
                self.map.remove(path);
                assert(self.map@ =~= old(self).map@);
                false
            },
        }
    }

    /// The registered paths, in the order they were first registered.
    pub fn path_list(&self) -> (r: Vec<String>)
        requires
            self.wf(),
        ensures
            views(r@) == self.paths(),
    {
        let mut r: Vec<String> = Vec::new();
        let mut i: usize = 0;
        while i < self.keys.len()
            invariant
                i <= self.keys.len(),
                views(r@) == views(self.keys@).take(i as int),
            decreases self.keys.len() - i,
        {
            let k = self.keys[i].clone();
            r.push(k);
            proof {
                assert(views(r@) =~= views(self.keys@).take(i as int).push(self.keys@[i as int]@));
                assert(views(r@) =~= views(self.keys@).take(i + 1));
            }
            i = i + 1;
        }
        assert(views(self.keys@).take(i as int) =~= views(self.keys@));
        r
    }

    /// The registered values, one per path, in the order of the paths.
    pub fn value_list(&self) -> (r: Vec<V>)
        where
            V: Copy,
        requires
            self.wf(),
        ensures
            r@.len() == self@.len(),
            r@.len() == self.paths().len(),
            forall|i: int| 0 <= i < r@.len() ==> #[trigger] r@[i] == self@[self.paths()[i]],
            r@.to_set() == self@.values(),
    {
        proof {
            self.lemma_paths();
        }
        let mut r: Vec<V> = Vec::new();
        let mut i: usize = 0;
        while i < self.keys.len()
            invariant
                self.wf(),
                i <= self.keys.len(),
                self.keys@.len() == self.paths().len(),
                r@.len() == i,
                forall|j: int| 0 <= j < r@.len() ==> #[trigger] r@[j] == self@[self.paths()[j]],
            decreases self.keys.len() - i,
        {
            proof {
                assert(self.paths()[i as int] == self.keys@[i as int]@);
                assert(self.paths().contains(self.keys@[i as int]@));
            }
            let v = *self.map.get(self.keys[i].as_str()).unwrap();
            r.push(v);
            i = i + 1;
        }
        proof {
            assert forall|v: V| r@.to_set().contains(v) <==> self@.values().contains(v) by {
                if r@.to_set().contains(v) {
                    let j = choose|j: int| 0 <= j < r@.len() && r@[j] == v;
                    assert(self.paths().contains(self.paths()[j]));
                    assert(self@.contains_key(self.paths()[j]));
                }
                if self@.values().contains(v) {
                    let k = choose|k: Seq<char>| self@.contains_key(k) && self@[k] == v;
                    assert(self.paths().contains(k));
                    let j = choose|j: int| 0 <= j < self.paths().len() && self.paths()[j] == k;
                    assert(r@[j] == v);
                    assert(r@.contains(v));
                }
            }
            assert(r@.to_set() =~= self@.values());
        }
        r
    }
}

} // verus!
