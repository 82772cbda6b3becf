use vstd::prelude::*;

verus! {

/// A table from names to values: each name holds at most one value. Setting
/// overwrites a declared name and never adds one; declaring adds one.
pub struct NameMap<V> {
    entries: Vec<(String, V)>,
}

/// What a lookup of `name` in the table `m` finds.
pub open spec fn lookup<V>(m: Map<Seq<char>, V>, name: Seq<char>) -> Option<V> {
    if m.contains_key(name) {
        Some(m[name])
    } else {
        None
    }
}

/// The table `m` after `name` is set to `value`: overwritten where
/// declared, unchanged otherwise.
pub open spec fn after_set<V>(m: Map<Seq<char>, V>, name: Seq<char>, value: V) -> Map<Seq<char>, V> {
    if m.contains_key(name) {
        m.insert(name, value)
    } else {
        m
    }
}

/// Setting a name that was never declared fails, and the name stays
/// absent afterwards.
pub proof fn lemma_set_undeclared<V>(m: Map<Seq<char>, V>, name: Seq<char>, value: V)
    requires
        !m.contains_key(name),
    ensures
        after_set(m, name, value) == m,
        lookup(after_set(m, name, value), name) is None,
{
}

/// Setting a declared name and then reading it gives the value last
/// written; other names keep their values.
pub proof fn lemma_set_then_get<V>(
    m: Map<Seq<char>, V>,
    name: Seq<char>,
    value: V,
    other: Seq<char>,
)
    requires
        m.contains_key(name),
    ensures
        lookup(after_set(m, name, value), name) == Some(value),
        other != name ==> lookup(after_set(m, name, value), other) == lookup(m, other),
{
}

/// The entry of `entries` whose name is `k` holds at index `i`.
pub open spec fn names_at<V>(entries: Seq<(String, V)>, i: int, k: Seq<char>) -> bool {
    0 <= i < entries.len() && entries[i].0@ == k
}

impl<V> NameMap<V> {
    /// No two entries share a name.
    pub closed spec fn wf(&self) -> bool {
        forall|i: int, j: int|
            0 <= i < j < self.entries@.len() ==> self.entries@[i].0@ != self.entries@[j].0@
    }

    /// The table as a map from name to value.
    pub closed spec fn view(&self) -> Map<Seq<char>, V> {
        Map::new(
            |k: Seq<char>| exists|i: int| names_at(self.entries@, i, k),
            |k: Seq<char>| self.entries@[choose|i: int| names_at(self.entries@, i, k)].1,
        )
    }

    proof fn lemma_view_at(&self, i: int)
        requires
            self.wf(),
            0 <= i < self.entries@.len(),
        ensures
            self.view().contains_key(self.entries@[i].0@),
            self.view()[self.entries@[i].0@] == self.entries@[i].1,
    {
        let k = self.entries@[i].0@;
        assert(names_at(self.entries@, i, k));
        let j = choose|j: int| names_at(self.entries@, j, k);
        assert(j == i);
    }

    /// An empty table.
    pub fn new() -> (r: Self)
        ensures
            r.wf(),
            r.view() == Map::<Seq<char>, V>::empty(),
    {
        let r = NameMap { entries: Vec::new() };
        assert(r.view() =~= Map::<Seq<char>, V>::empty());
        r
    }

    fn find(&self, name: &String) -> (r: Option<usize>)
        ensures
            match r {
                Some(i) => names_at(self.entries@, i as int, name@),
                None => forall|i: int| !names_at(self.entries@, i, name@),
            },
    {
        let mut i: usize = 0;
        while i < self.entries.len()
            invariant
                i <= self.entries@.len(),
                forall|j: int| 0 <= j < i ==> !names_at(self.entries@, j, name@),
            decreases self.entries@.len() - i,
        {
            if self.entries[i].0 == *name {
                return Some(i);
            }
            i = i + 1;
        }
        None
    }

    /// Whether the name is declared.
    pub fn contains(&self, name: &String) -> (r: bool)
        requires
            self.wf(),
        ensures
            r == self.view().contains_key(name@),
    {
        match self.find(name) {
            Some(i) => {
                proof {
                    self.lemma_view_at(i as int);
                }
                true
            },
            None => false,
        }
    }

    /// The value held under `name`, or `None` where the name is not declared.
    pub fn get(&self, name: &String) -> (r: Option<&V>)
        requires
            self.wf(),
        ensures
            r is Some <==> self.view().contains_key(name@),
            r matches Some(v) ==> *v == self.view()[name@],
    {
        match self.find(name) {
            Some(i) => {
                proof {
                    self.lemma_view_at(i as int);
                }
                Some(&self.entries[i].1)
            },
            None => None,
        }
    }

    /// Overwrites the value under `name` and returns true; where the name is
    /// not declared, returns false and changes nothing.
    pub fn set(&mut self, name: String, value: V) -> (r: bool)
        requires
            old(self).wf(),
        ensures
            final(self).wf(),
            r == old(self).view().contains_key(name@),
            final(self).view() == after_set(old(self).view(), name@, value),
    {
        match self.find(&name) {
            Some(i) => {
                let ghost k = name@;
                let ghost before = *self;
                proof {
                    before.lemma_view_at(i as int);
                }
                self.entries.set(i, (name, value));
                proof {
                    assert forall|a: int, b: int|
                        0 <= a < b < self.entries@.len() implies self.entries@[a].0@
                        != self.entries@[b].0@ by {
                        assert(before.entries@[a].0@ != before.entries@[b].0@);
                    }
                    assert forall|key: Seq<char>|
                        #![auto]
                        self.view().contains_key(key) == before.view().insert(
                            k,
                            value,
                        ).contains_key(key) by {
                        if key != k {
                            if exists|j: int| names_at(before.entries@, j, key) {
                                let j = choose|j: int| names_at(before.entries@, j, key);
                                assert(names_at(self.entries@, j, key));
                            }
                            if exists|j: int| names_at(self.entries@, j, key) {
                                let j = choose|j: int| names_at(self.entries@, j, key);
                                assert(names_at(before.entries@, j, key));
                            }
                        } else {
                            assert(names_at(self.entries@, i as int, key));
                        }
                    }
                    assert forall|key: Seq<char>|
                        #![auto]
                        self.view().contains_key(key) implies self.view()[key]
                        == before.view().insert(k, value)[key] by {
                        let j = choose|j: int| names_at(self.entries@, j, key);
                        self.lemma_view_at(j);
                        if key != k {
                            assert(names_at(before.entries@, j, key));
                            before.lemma_view_at(j);
                        } else {
                            self.lemma_view_at(i as int);
                        }
                    }
                    assert(self.view() =~= before.view().insert(k, value));
                }
                true
            },
            None => false,
        }
    }

    /// Declares `name` holding `value` and returns true; where the name is
    /// already declared, returns false and changes nothing.
    pub fn declare(&mut self, name: String, value: V) -> (r: bool)
        requires
            old(self).wf(),
        ensures
            final(self).wf(),
            r == !old(self).view().contains_key(name@),
            final(self).view() == (if r {
                old(self).view().insert(name@, value)
            } else {
                old(self).view()
            }),
    {
        match self.find(&name) {
            Some(i) => {
                proof {
                    self.lemma_view_at(i as int);
                }
                false
            },
            None => {
                let ghost k = name@;
                let ghost before = *self;
                self.entries.push((name, value));
                proof {
                    let n = before.entries@.len() as int;
                    assert forall|a: int, b: int|
                        0 <= a < b < self.entries@.len() implies self.entries@[a].0@
                        != self.entries@[b].0@ by {
                        if b < n {
                            assert(before.entries@[a].0@ != before.entries@[b].0@);
                        } else {
                            assert(!names_at(before.entries@, a, k));
                        }
                    }
                    assert forall|key: Seq<char>|
                        #![auto]
                        self.view().contains_key(key) == before.view().insert(
                            k,
                            value,
                        ).contains_key(key) by {
                        if exists|j: int| names_at(before.entries@, j, key) {
                            let j = choose|j: int| names_at(before.entries@, j, key);
                            assert(names_at(self.entries@, j, key));
                        }
                        if exists|j: int| names_at(self.entries@, j, key) {
                            let j = choose|j: int| names_at(self.entries@, j, key);
                            if j < n {
                                assert(names_at(before.entries@, j, key));
                            }
                        }
                        if key == k {
                            assert(names_at(self.entries@, n, key));
                        }
                    }
                    assert forall|key: Seq<char>|
                        #![auto]
                        self.view().contains_key(key) implies self.view()[key]
                        == before.view().insert(k, value)[key] by {
                        let j = choose|j: int| names_at(self.entries@, j, key);
                        self.lemma_view_at(j);
                        if j < n {
                            assert(names_at(before.entries@, j, key));
                            before.lemma_view_at(j);
                        }
                    }
                    assert(self.view() =~= before.view().insert(k, value));
                }
                true
            },
        }
    }
}

} // verus!
