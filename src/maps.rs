//! String-keyed maps: a flat one (a config section, a host's session
//! values) and a two-level one (the whole config, the session store).
use vstd::prelude::*;

verus! {

/// A map from string keys to string values, kept as a vector of unique keys.
pub struct StrMap {
    entries: Vec<(String, String)>,
    model: Ghost<Map<Seq<char>, Seq<char>>>,
}

impl View for StrMap {
    type V = Map<Seq<char>, Seq<char>>;

    closed spec fn view(&self) -> Map<Seq<char>, Seq<char>> {
        self.model@
    }
}

impl StrMap {
    /// The entries hold each key once, and the model maps exactly those keys.
    pub closed spec fn wf(&self) -> bool {
        &&& forall|i: int, j: int|
            0 <= i < self.entries@.len() && 0 <= j < self.entries@.len() && i != j
                ==> #[trigger] self.entries@[i].0@ != #[trigger] self.entries@[j].0@
        &&& forall|i: int|
            0 <= i < self.entries@.len() ==> self.model@.contains_key(#[trigger] self.entries@[i].0@)
                && self.model@[self.entries@[i].0@] == self.entries@[i].1@
        &&& forall|k: Seq<char>|
            #[trigger] self.model@.contains_key(k) ==> exists|i: int|
                0 <= i < self.entries@.len() && #[trigger] self.entries@[i].0@ == k
    }

    pub fn new() -> (r: StrMap)
        ensures
            r.wf(),
            r@ == Map::<Seq<char>, Seq<char>>::empty(),
    {
        StrMap { entries: Vec::new(), model: Ghost(Map::empty()) }
    }

    fn find(&self, key: &String) -> (r: Option<usize>)
        requires
            self.wf(),
        ensures
            match r {
                Some(i) => i < self.entries@.len() && self.entries@[i as int].0@ == key@,
                None => !self@.contains_key(key@),
            },
    {
        let mut i: usize = 0;
        while i < self.entries.len()
            invariant
                0 <= i <= self.entries@.len(),
                forall|j: int| 0 <= j < i ==> self.entries@[j].0@ != key@,
            decreases self.entries@.len() - i,
        {
            if self.entries[i].0 == *key {
                return Some(i);
            }
            i = i + 1;
        }
        None
    }

    /// The value stored under `key`, if any.
    pub fn get(&self, key: &String) -> (r: Option<&String>)
        requires
            self.wf(),
        ensures
            r is Some <==> self@.contains_key(key@),
            r is Some ==> r->0@ == self@[key@],
    {
        match self.find(key) {
            Some(i) => Some(&self.entries[i].1),
            None => None,
        }
    }

    /// Stores `value` under `key`, replacing what was there.
    pub fn insert(&mut self, key: String, value: String)
        requires
            old(self).wf(),
        ensures
            final(self).wf(),
            final(self)@ == old(self)@.insert(key@, value@),
    {
        match self.find(&key) {
            Some(i) => {
                self.entries[i].1 = value;
                self.model = Ghost(self.model@.insert(key@, value@));
                assert forall|k: Seq<char>| #[trigger] self.model@.contains_key(k) implies exists|j: int|
                    0 <= j < self.entries@.len() && #[trigger] self.entries@[j].0@ == k by {
                    if k == key@ {
                        assert(self.entries@[i as int].0@ == k);
                    } else {
                        assert(old(self).model@.contains_key(k));
                        let j = choose|j: int| 0 <= j < old(self).entries@.len() && #[trigger] old(self).entries@[j].0@ == k;
                        assert(self.entries@[j].0@ == k);
                    }
                }
            },
            None => {
                let ghost kv = key@;
                self.entries.push((key, value));
                self.model = Ghost(self.model@.insert(kv, value@));
                let ghost n = self.entries@.len() - 1;
                assert(self.entries@[n].0@ == kv);
                assert forall|k: Seq<char>| #[trigger] self.model@.contains_key(k) implies exists|j: int|
                    0 <= j < self.entries@.len() && #[trigger] self.entries@[j].0@ == k by {
                    if k == kv {
                        assert(self.entries@[n].0@ == k);
                    } else {
                        assert(old(self).model@.contains_key(k));
                        let j = choose|j: int| 0 <= j < old(self).entries@.len() && #[trigger] old(self).entries@[j].0@ == k;
                        assert(self.entries@[j].0@ == k);
                    }
                }
            },
        }
    }

    /// A copy holding the same entries.
    pub fn copied(&self) -> (r: StrMap)
        requires
            self.wf(),
        ensures
            r.wf(),
            r@ == self@,
    {
        let mut entries: Vec<(String, String)> = Vec::new();
        let mut i: usize = 0;
        while i < self.entries.len()
            invariant
                0 <= i <= self.entries@.len(),
                entries@.len() == i,
                forall|j: int| 0 <= j < i ==> entries@[j] == self.entries@[j],
            decreases self.entries@.len() - i,
        {
            let k = self.entries[i].0.clone();
            let v = self.entries[i].1.clone();
            entries.push((k, v));
            i = i + 1;
        }
        assert(entries@ =~= self.entries@);
        let r = StrMap { entries, model: Ghost(self.model@) };
        assert(r.entries@ == self.entries@);
        r
    }
}

/// A map from section names to string maps: the config (one section per
/// host) and the session store (one section of cached values per host).
pub struct NestedMap {
    entries: Vec<(String, StrMap)>,
    model: Ghost<Map<Seq<char>, Map<Seq<char>, Seq<char>>>>,
}

impl View for NestedMap {
    type V = Map<Seq<char>, Map<Seq<char>, Seq<char>>>;

    closed spec fn view(&self) -> Map<Seq<char>, Map<Seq<char>, Seq<char>>> {
        self.model@
    }
}

impl NestedMap {
    /// Each name is held once, every section is well formed, and the model
    /// maps exactly those names to their sections.
    pub closed spec fn wf(&self) -> bool {
        &&& forall|i: int, j: int|
            0 <= i < self.entries@.len() && 0 <= j < self.entries@.len() && i != j
                ==> #[trigger] self.entries@[i].0@ != #[trigger] self.entries@[j].0@
        &&& forall|i: int|
            0 <= i < self.entries@.len() ==> self.model@.contains_key(#[trigger] self.entries@[i].0@)
                && self.model@[self.entries@[i].0@] == self.entries@[i].1@
                && self.entries@[i].1.wf()
        &&& forall|k: Seq<char>|
            #[trigger] self.model@.contains_key(k) ==> exists|i: int|
                0 <= i < self.entries@.len() && #[trigger] self.entries@[i].0@ == k
    }

    pub fn new() -> (r: NestedMap)
        ensures
            r.wf(),
            r@ == Map::<Seq<char>, Map<Seq<char>, Seq<char>>>::empty(),
    {
        NestedMap { entries: Vec::new(), model: Ghost(Map::empty()) }
    }

    fn find(&self, name: &String) -> (r: Option<usize>)
        requires
            self.wf(),
        ensures
            match r {
                Some(i) => i < self.entries@.len() && self.entries@[i as int].0@ == name@,
                None => !self@.contains_key(name@),
            },
    {
        let mut i: usize = 0;
        while i < self.entries.len()
            invariant
                0 <= i <= self.entries@.len(),
                forall|j: int| 0 <= j < i ==> self.entries@[j].0@ != name@,
            decreases self.entries@.len() - i,
        {
            if self.entries[i].0 == *name {
                return Some(i);
            }
            i = i + 1;
        }
        None
    }

    /// The section stored under `name`, if any.
    pub fn get(&self, name: &String) -> (r: Option<&StrMap>)
        requires
            self.wf(),
        ensures
            r is Some <==> self@.contains_key(name@),
            r is Some ==> r->0.wf() && r->0@ == self@[name@],
    {
        match self.find(name) {
            Some(i) => Some(&self.entries[i].1),
            None => None,
        }
    }

    /// Stores `section` under `name`, replacing any section of that name.
    pub fn insert_section(&mut self, name: String, section: StrMap)
        requires
            old(self).wf(),
            section.wf(),
        ensures
            final(self).wf(),
            final(self)@ == old(self)@.insert(name@, section@),
    {
        let ghost sv = section@;
        match self.find(&name) {
            Some(i) => {
                self.entries[i].1 = section;
                self.model = Ghost(self.model@.insert(name@, sv));
                assert forall|k: Seq<char>| #[trigger] self.model@.contains_key(k) implies exists|j: int|
                    0 <= j < self.entries@.len() && #[trigger] self.entries@[j].0@ == k by {
                    if k == name@ {
                        assert(self.entries@[i as int].0@ == k);
                    } else {
                        assert(old(self).model@.contains_key(k));
                        let j = choose|j: int| 0 <= j < old(self).entries@.len() && #[trigger] old(self).entries@[j].0@ == k;
                        assert(self.entries@[j].0@ == k);
                    }
                }
            },
            None => {
                let ghost nv = name@;
                self.entries.push((name, section));
                self.model = Ghost(self.model@.insert(nv, sv));
                let ghost n = self.entries@.len() - 1;
                assert(self.entries@[n].0@ == nv);
                assert forall|k: Seq<char>| #[trigger] self.model@.contains_key(k) implies exists|j: int|
                    0 <= j < self.entries@.len() && #[trigger] self.entries@[j].0@ == k by {
                    if k == nv {
                        assert(self.entries@[n].0@ == k);
                    } else {
                        assert(old(self).model@.contains_key(k));
                        let j = choose|j: int| 0 <= j < old(self).entries@.len() && #[trigger] old(self).entries@[j].0@ == k;
                        assert(self.entries@[j].0@ == k);
                    }
                }
            },
        }
    }

    /// Stores `value` under `key` in the section `name`, creating the
    /// section when it is absent; every other section is left as it was.
    pub fn set(&mut self, name: String, key: String, value: String)
        requires
            old(self).wf(),
        ensures
            final(self).wf(),
            final(self)@ == old(self)@.insert(name@, section_or_empty(old(self)@, name@).insert(key@, value@)),
    {
        match self.find(&name) {
            Some(i) => {
                let ghost kv = key@;
                let ghost vv = value@;
                self.entries[i].1.insert(key, value);
                let ghost inner = self.entries@[i as int].1@;
                self.model = Ghost(self.model@.insert(name@, inner));
                assert(inner == old(self)@[name@].insert(kv, vv));
                assert forall|k: Seq<char>| #[trigger] self.model@.contains_key(k) implies exists|j: int|
                    0 <= j < self.entries@.len() && #[trigger] self.entries@[j].0@ == k by {
                    if k == name@ {
                        assert(self.entries@[i as int].0@ == k);
                    } else {
                        assert(old(self).model@.contains_key(k));
                        let j = choose|j: int| 0 <= j < old(self).entries@.len() && #[trigger] old(self).entries@[j].0@ == k;
                        assert(self.entries@[j].0@ == k);
                    }
                }
            },
            None => {
                let mut section = StrMap::new();
                section.insert(key, value);
                self.insert_section(name, section);
            },
        }
    }
}

/// The section stored under `name`, or the empty map when there is none.
pub open spec fn section_or_empty(m: Map<Seq<char>, Map<Seq<char>, Seq<char>>>, name: Seq<char>) -> Map<
    Seq<char>,
    Seq<char>,
> {
    if m.contains_key(name) {
        m[name]
    } else {
        Map::empty()
    }
}

/// The value stored under `key` in the section `name`, or the empty string
/// when either is absent.
pub open spec fn value_or_empty(m: Map<Seq<char>, Map<Seq<char>, Seq<char>>>, name: Seq<char>, key: Seq<char>) -> Seq<char> {
    let section = section_or_empty(m, name);
    if section.contains_key(key) {
        section[key]
    } else {
        Seq::empty()
    }
}

} // verus!
