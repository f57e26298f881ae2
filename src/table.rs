use vstd::prelude::*;

verus! {

/// A map from text keys to values, kept as a list of entries in insertion
/// order with each key present at most once.
#[derive(Clone)]
pub struct Table<V> {
    entries: Vec<(String, V)>,
    contents: Ghost<Map<Seq<char>, V>>,
}

impl<V> View for Table<V> {
    type V = Map<Seq<char>, V>;

    closed spec fn view(&self) -> Map<Seq<char>, V> {
        self.contents@
    }
}

impl<V> Table<V> {
    /// The keys, in the order in which they were first inserted.
    pub closed spec fn key_seq(&self) -> Seq<Seq<char>> {
        self.entries@.map_values(|e: (String, V)| e.0@)
    }

    pub closed spec fn entries_match(&self) -> bool {
        &&& forall|i: int|
            0 <= i < self.entries@.len() ==> #[trigger] self.contents@.contains_key(
                self.entries@[i].0@,
            ) && self.contents@[self.entries@[i].0@] == self.entries@[i].1
        &&& forall|k: Seq<char>|
            #[trigger] self.contents@.contains_key(k) ==> exists|i: int|
                0 <= i < self.entries@.len() && self.entries@[i].0@ == k
        &&& forall|i: int, j: int|
            #![trigger self.entries@[i], self.entries@[j]]
            0 <= i < j < self.entries@.len() ==> self.entries@[i].0@ != self.entries@[j].0@
    }

    /// Well-formedness: keys are unique and the key list matches the map.
    pub open spec fn wf(&self) -> bool {
        &&& self.entries_match()
        &&& self.key_seq().no_duplicates()
        &&& forall|k: Seq<char>| #[trigger] self@.contains_key(k) <==> self.key_seq().contains(k)
        &&& self.key_seq().len() == self@.dom().len()
    }

    proof fn lemma_wf(&self)
        requires
            self.entries_match(),
        ensures
            self.wf(),
    {
        let ks = self.key_seq();
        assert forall|k: Seq<char>| #[trigger] self@.contains_key(k) <==> ks.contains(k) by {
            if self@.contains_key(k) {
                let i = choose|i: int| 0 <= i < self.entries@.len() && self.entries@[i].0@ == k;
                assert(ks[i] == k);
            }
            if ks.contains(k) {
                let i = choose|i: int| 0 <= i < ks.len() && ks[i] == k;
                assert(self.contents@.contains_key(self.entries@[i].0@));
            }
        }
        assert(ks.no_duplicates());
        ks.unique_seq_to_set();
        assert(ks.to_set() =~= self@.dom());
    }

    /// An empty table.
    pub fn new() -> (r: Table<V>)
        ensures
            r.wf(),
            r@ == Map::<Seq<char>, V>::empty(),
            r.key_seq() == Seq::<Seq<char>>::empty(),
    {
        let r = Table { entries: Vec::new(), contents: Ghost(Map::empty()) };
        proof {
            r.lemma_wf();
            assert(r.key_seq() =~= Seq::<Seq<char>>::empty());
        }
        r
    }

    /// Number of entries.
    pub fn len(&self) -> (r: usize)
        requires
            self.wf(),
        ensures
            r == self.key_seq().len(),
            r == self@.dom().len(),
    {
        self.entries.len()
    }

    /// Whether the table has no entry.
    pub fn is_empty(&self) -> (r: bool)
        requires
            self.wf(),
        ensures
            r == (self@.dom().len() == 0),
            r == (self@ == Map::<Seq<char>, V>::empty()),
    {
        proof {
            if self@.dom().len() == 0 {
                assert(self@.dom() =~= Set::<Seq<char>>::empty());
                assert(self@ =~= Map::<Seq<char>, V>::empty());
            }
        }
        self.entries.len() == 0
    }

    fn find(&self, key: &String) -> (r: Option<usize>)
        requires
            self.wf(),
        ensures
            match r {
                Some(i) => i < self.entries@.len() && self.entries@[i as int].0@ == key@,
                None => !self@.contains_key(key@),
            },
    {
        let mut i: usize = 0;
        while i < self.entries.len()
            invariant
                self.wf(),
                i <= self.entries@.len(),
                forall|j: int| 0 <= j < i ==> self.entries@[j].0@ != key@,
            decreases self.entries@.len() - i,
        {
            if self.entries[i].0 == *key {
                return Some(i);
            }
            i = i + 1;
        }
        proof {
            if self@.contains_key(key@) {
                let j = choose|j: int| 0 <= j < self.entries@.len() && self.entries@[j].0@ == key@;
                assert(self.entries@[j].0@ != key@);
            }
        }
        None
    }

    /// Whether `key` has an entry.
    pub fn contains_key(&self, key: &String) -> (r: bool)
        requires
            self.wf(),
        ensures
            r == self@.contains_key(key@),
    {
        match self.find(key) {
            Some(i) => {
                proof {
                    assert(self.contents@.contains_key(self.entries@[i as int].0@));
                }
                true
            },
            None => false,
        }
    }

    /// The value under `key`, if any.
    pub fn get(&self, key: &String) -> (r: Option<&V>)
        requires
            self.wf(),
        ensures
            match r {
                Some(v) => self@.contains_key(key@) && *v == self@[key@],
                None => !self@.contains_key(key@),
            },
    {
        match self.find(key) {
            Some(i) => {
                proof {
                    assert(self.contents@.contains_key(self.entries@[i as int].0@));
                }
                Some(&self.entries[i].1)
            },
            None => None,
        }
    }

    /// The key at position `i` of the key list.
    pub fn key_at(&self, i: usize) -> (r: &String)
        requires
            self.wf(),
            i < self.key_seq().len(),
        ensures
            r@ == self.key_seq()[i as int],
    {
        &self.entries[i].0
    }

    /// Sets `key` to `value`. A key already present keeps its place in the
    /// key list; a new key goes to its end.
    pub fn insert(&mut self, key: String, value: V)
        requires
            old(self).wf(),
        ensures
            final(self).wf(),
            final(self)@ == old(self)@.insert(key@, value),
            old(self)@.contains_key(key@) ==> final(self).key_seq() == old(self).key_seq(),
            !old(self)@.contains_key(key@) ==> final(self).key_seq() == old(self).key_seq().push(
                key@,
            ),
    {
        let ghost k = key@;
        let ghost prev = self.entries@;
        match self.find(&key) {
            Some(i) => {
                self.entries.set(i, (key, value));
                self.contents = Ghost(self.contents@.insert(k, value));
                proof {
                    assert forall|j: int| 0 <= j < self.entries@.len() implies #[trigger]
                        self.contents@.contains_key(self.entries@[j].0@) && self.contents@[
                        self.entries@[j].0@] == self.entries@[j].1 by {
                        if j != i {
                            assert(prev[j].0@ != k);
                            assert(old(self).contents@.contains_key(prev[j].0@));
                        }
                    }
                    assert forall|kk: Seq<char>| #[trigger]
                        self.contents@.contains_key(kk) implies exists|j: int|
                        0 <= j < self.entries@.len() && self.entries@[j].0@ == kk by {
                        if kk != k {
                            assert(old(self).contents@.contains_key(kk));
                            let j = choose|j: int| 0 <= j < prev.len() && prev[j].0@ == kk;
                            assert(self.entries@[j].0@ == kk);
                        } else {
                            assert(self.entries@[i as int].0@ == kk);
                        }
                    }
                    assert forall|a: int, b: int|
                        #![trigger self.entries@[a], self.entries@[b]]
                        0 <= a < b < self.entries@.len() implies self.entries@[a].0@
                        != self.entries@[b].0@ by {
                        if a != i && b != i {
                            assert(prev[a].0@ != prev[b].0@);
                        } else if a == i {
                            assert(prev[a].0@ != prev[b].0@);
                        } else {
                            assert(prev[a].0@ != prev[b].0@);
                        }
                    }
                    self.lemma_wf();
                    assert(self.key_seq() =~= old(self).key_seq());
                }
            },
            None => {
                self.entries.push((key, value));
                self.contents = Ghost(self.contents@.insert(k, value));
                proof {
                    let n = prev.len() as int;
                    assert forall|j: int| 0 <= j < self.entries@.len() implies #[trigger]
                        self.contents@.contains_key(self.entries@[j].0@) && self.contents@[
                        self.entries@[j].0@] == self.entries@[j].1 by {
                        if j != n {
                            assert(self.entries@[j] == prev[j]);
                            assert(old(self).contents@.contains_key(prev[j].0@));
                            assert(prev[j].0@ != k);
                        }
                    }
                    assert forall|kk: Seq<char>| #[trigger]
                        self.contents@.contains_key(kk) implies exists|j: int|
                        0 <= j < self.entries@.len() && self.entries@[j].0@ == kk by {
                        if kk != k {
                            assert(old(self).contents@.contains_key(kk));
                            let j = choose|j: int| 0 <= j < prev.len() && prev[j].0@ == kk;
                            assert(self.entries@[j].0@ == kk);
                        } else {
                            assert(self.entries@[n].0@ == kk);
                        }
                    }
                    assert forall|a: int, b: int|
                        #![trigger self.entries@[a], self.entries@[b]]
                        0 <= a < b < self.entries@.len() implies self.entries@[a].0@
                        != self.entries@[b].0@ by {
                        if b == n {
                            assert(old(self).contents@.contains_key(prev[a].0@));
                        } else {
                            assert(prev[a].0@ != prev[b].0@);
                        }
                    }
                    self.lemma_wf();
                    assert(self.key_seq() =~= old(self).key_seq().push(k));
                }
            },
        }
    }

    /// Takes out the entry under `key`, returning its value; the other keys
    /// keep their order.
    pub fn remove(&mut self, key: &String) -> (r: Option<V>)
        requires
            old(self).wf(),
        ensures
            final(self).wf(),
            final(self)@ == old(self)@.remove(key@),
            match r {
                Some(v) => old(self)@.contains_key(key@) && v == old(self)@[key@],
                None => !old(self)@.contains_key(key@),
            },
    {
        let ghost k = key@;
        let ghost prev = self.entries@;
        match self.find(key) {
            Some(i) => {
                let (_, v) = self.entries.remove(i);
                self.contents = Ghost(self.contents@.remove(k));
                proof {
                    assert(old(self).contents@.contains_key(prev[i as int].0@));
                    assert forall|j: int| 0 <= j < self.entries@.len() implies #[trigger]
                        self.contents@.contains_key(self.entries@[j].0@) && self.contents@[
                        self.entries@[j].0@] == self.entries@[j].1 by {
                        let pj = if j < i {
                            j
                        } else {
                            j + 1
                        };
                        assert(self.entries@[j] == prev[pj]);
                        assert(old(self).contents@.contains_key(prev[pj].0@));
                        assert(prev[pj].0@ != k);
                    }
                    assert forall|kk: Seq<char>| #[trigger]
                        self.contents@.contains_key(kk) implies exists|j: int|
                        0 <= j < self.entries@.len() && self.entries@[j].0@ == kk by {
                        assert(old(self).contents@.contains_key(kk));
                        let j = choose|j: int| 0 <= j < prev.len() && prev[j].0@ == kk;
                        assert(j != i);
                        if j < i {
                            assert(self.entries@[j].0@ == kk);
                        } else {
                            assert(self.entries@[j - 1].0@ == kk);
                        }
                    }
                    assert forall|a: int, b: int|
                        #![trigger self.entries@[a], self.entries@[b]]
                        0 <= a < b < self.entries@.len() implies self.entries@[a].0@
                        != self.entries@[b].0@ by {
                        let pa = if a < i {
                            a
                        } else {
                            a + 1
                        };
                        let pb = if b < i {
                            b
                        } else {
                            b + 1
                        };
                        assert(self.entries@[a] == prev[pa]);
                        assert(self.entries@[b] == prev[pb]);
                        assert(prev[pa].0@ != prev[pb].0@);
                    }
                    self.lemma_wf();
                }
                Some(v)
            },
            None => {
                proof {
                    assert(self.contents@ =~= old(self).contents@.remove(k));
                }
                None
            },
        }
    }

    /// Removes every entry.
    pub fn clear(&mut self)
        requires
            old(self).wf(),
        ensures
            final(self).wf(),
            final(self)@ == Map::<Seq<char>, V>::empty(),
    {
        self.entries = Vec::new();
        self.contents = Ghost(Map::empty());
        proof {
            assert(self.entries@.len() == 0);
            self.lemma_wf();
        }
    }
}

} // verus!
