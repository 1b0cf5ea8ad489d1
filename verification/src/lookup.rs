//! Tables keyed by name: the lookups that the simulator keeps for classes,
//! skills, blueprints and abbreviations.
use vstd::prelude::*;

verus! {

/// A table from names to values in which each name occurs at most once.
/// Inserting under a name that is already present replaces its value.
pub struct NameMap<V> {
    entries: Vec<(String, V)>,
}

impl<V> NameMap<V> {
    /// The name of the `i`-th entry.
    pub closed spec fn key_at(&self, i: int) -> Seq<char> {
        self.entries@[i].0@
    }

    /// The value of the `i`-th entry.
    pub closed spec fn value_at(&self, i: int) -> V {
        self.entries@[i].1
    }

    /// The number of entries.
    pub closed spec fn size(&self) -> nat {
        self.entries@.len()
    }

    /// No name occurs twice. Every table satisfies this; a proof obtains it
    /// with `use_type_invariant`.
    #[verifier::type_invariant]
    pub closed spec fn wf(&self) -> bool {
        forall|i: int, j: int|
            0 <= i < j < self.entries@.len() ==> #[trigger] self.entries@[i].0@
                != #[trigger] self.entries@[j].0@
    }

    /// The table as a map from names to values.
    pub closed spec fn view(&self) -> Map<Seq<char>, V> {
        Map::new(
            |k: Seq<char>| exists|i: int| 0 <= i < self.size() && self.key_at(i) == k,
            |k: Seq<char>| self.value_at(choose|i: int| 0 <= i < self.size() && self.key_at(i) == k),
        )
    }

    /// The `i`-th entry is the map's value under its name, and the map holds
    /// no name but those of the entries.
    pub proof fn lemma_entry(&self, i: int)
        requires
            self.wf(),
            0 <= i < self.size(),
        ensures
            self@.contains_key(self.key_at(i)),
            self@[self.key_at(i)] == self.value_at(i),
            forall|j: int| 0 <= j < self.size() && j != i ==> self.key_at(j) != self.key_at(i),
    {
        let k = self.key_at(i);
        assert(0 <= i < self.size() && self.key_at(i) == k);
        let c = choose|c: int| 0 <= c < self.size() && self.key_at(c) == k;
        if c != i {
            if c < i {
                assert(self.entries@[c].0@ != self.entries@[i].0@);
            } else {
                assert(self.entries@[i].0@ != self.entries@[c].0@);
            }
        }
        assert forall|j: int| 0 <= j < self.size() && j != i implies self.key_at(j) != self.key_at(
            i,
        ) by {
            if j < i {
                assert(self.entries@[j].0@ != self.entries@[i].0@);
            } else {
                assert(self.entries@[i].0@ != self.entries@[j].0@);
            }
        }
    }

    /// Every name in the map is the name of some entry.
    pub proof fn lemma_key(&self, k: Seq<char>)
        requires
            self@.contains_key(k),
        ensures
            exists|i: int| 0 <= i < self.size() && self.key_at(i) == k,
    {
    }

    /// An empty table.
    pub fn new() -> (res: Self)
        ensures
            res@ == Map::<Seq<char>, V>::empty(),
            res.size() == 0,
    {
        let res = NameMap { entries: Vec::new() };
        assert(res@ =~= Map::<Seq<char>, V>::empty());
        res
    }

    /// The number of entries (distinct names) in the table.
    pub fn num_entries(&self) -> (res: usize)
        ensures
            res == self.size(),
    {
        self.entries.len()
    }

    /// The name of the `i`-th entry.
    pub fn name_at(&self, i: usize) -> (res: &String)
        requires
            i < self.size(),
        ensures
            res@ == self.key_at(i as int),
    {
        &self.entries[i].0
    }

    /// The value of the `i`-th entry.
    pub fn entry_value(&self, i: usize) -> (res: &V)
        requires
            i < self.size(),
        ensures
            *res == self.value_at(i as int),
    {
        &self.entries[i].1
    }

    /// The position of the entry named `k`, if there is one.
    pub fn position(&self, k: &str) -> (res: Option<usize>)
        ensures
            match res {
                Some(i) => i < self.size() && self.key_at(i as int) == k@,
                None => !self@.contains_key(k@),
            },
    {
        let mut i: usize = 0;
        while i < self.entries.len()
            invariant
                i <= self.entries@.len(),
                forall|j: int| 0 <= j < i ==> self.key_at(j) != k@,
            decreases self.entries@.len() - i,
        {
            if crate::text::str_equals(self.entries[i].0.as_str(), k) {
                return Some(i);
            }
            i = i + 1;
        }
        None
    }

    /// The value under `k`, if any.
    pub fn get(&self, k: &str) -> (res: Option<&V>)
        ensures
            match res {
                Some(v) => self@.contains_key(k@) && *v == self@[k@],
                None => !self@.contains_key(k@),
            },
    {
        match self.position(k) {
            Some(i) => {
                proof {
                    use_type_invariant(self);
                    self.lemma_entry(i as int);
                }
                Some(&self.entries[i].1)
            },
            None => None,
        }
    }

    /// Whether the table holds a value under `k`.
    pub fn contains_key(&self, k: &str) -> (res: bool)
        ensures
            res == self@.contains_key(k@),
    {
        self.position(k).is_some()
    }

    /// Stores `v` under `k`, replacing what was stored there.
    pub fn insert(&mut self, k: String, v: V)
        ensures
            final(self)@ == old(self)@.insert(k@, v),
    {
        proof {
            use_type_invariant(&*self);
        }
        let pos = self.position(k.as_str());
        let ghost old_self = *self;
        let mut entries = Vec::new();
        std::mem::swap(&mut entries, &mut self.entries);
        match pos {
            Some(i) => {
                entries.set(i, (k, v));
            },
            None => {
                entries.push((k, v));
            },
        }
        proof {
            let ghost km = k@;
            assert forall|a: int, b: int|
                0 <= a < b < entries@.len() implies #[trigger] entries@[a].0@
                != #[trigger] entries@[b].0@ by {
                if b < old_self.entries@.len() {
                    if a != pos.unwrap_or(usize::MAX) as int && b != pos.unwrap_or(usize::MAX) as int {
                        assert(old_self.entries@[a].0@ != old_self.entries@[b].0@);
                    } else if a == pos.unwrap_or(usize::MAX) as int {
                        old_self.lemma_entry(b);
                        assert(old_self.key_at(b) != old_self.key_at(a));
                    } else {
                        old_self.lemma_entry(a);
                        assert(old_self.key_at(a) != old_self.key_at(b));
                    }
                } else {
                    assert(pos is None);
                    if old_self.key_at(a) == km {
                        assert(old_self@.contains_key(km));
                    }
                }
            }
        }
        *self = NameMap { entries };
        proof {
            use_type_invariant(&*self);
            let ghost km = k@;
            assert forall|key: Seq<char>| #[trigger] self@.contains_key(key) <==> old_self@.insert(
                km,
                v,
            ).contains_key(key) by {
                if self@.contains_key(key) {
                    let j = choose|j: int| 0 <= j < self.size() && self.key_at(j) == key;
                    if key != km {
                        assert(old_self.key_at(j) == key);
                    }
                }
                if old_self@.contains_key(key) && key != km {
                    let j = choose|j: int| 0 <= j < old_self.size() && old_self.key_at(j) == key;
                    assert(self.key_at(j) == key);
                }
                if key == km {
                    match pos {
                        Some(i) => assert(self.key_at(i as int) == km),
                        None => assert(self.key_at(old_self.size() as int) == km),
                    }
                }
            }
            assert forall|key: Seq<char>| #[trigger] self@.contains_key(key) implies self@[key]
                == old_self@.insert(km, v)[key] by {
                let j = choose|j: int| 0 <= j < self.size() && self.key_at(j) == key;
                self.lemma_entry(j);
                if key != km {
                    match pos {
                        Some(i) => assert(j != i),
                        None => assert(j != old_self.size()),
                    }
                    assert(j < old_self.size());
                    assert(self.entries@[j] == old_self.entries@[j]);
                    old_self.lemma_entry(j);
                } else {
                    match pos {
                        Some(i) => {
                            assert(self.key_at(i as int) == km);
                            assert(j == i);
                        },
                        None => {
                            assert(self.key_at(old_self.size() as int) == km);
                            assert(j == old_self.size());
                        },
                    }
                }
            }
            assert(self@ =~= old_self@.insert(km, v));
        }
    }
}

} // verus!
