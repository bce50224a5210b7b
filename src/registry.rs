//! A registry of named resources: one value per key, looked up by name.
use vstd::prelude::*;

verus! {

/// Values keyed by name; each key appears at most once.
pub struct Registry<T> {
    entries: Vec<(String, T)>,
    contents: Ghost<Map<Seq<char>, T>>,
}

impl<T> View for Registry<T> {
    type V = Map<Seq<char>, T>;

    closed spec fn view(&self) -> Map<Seq<char>, T> {
        self.contents@
    }
}

impl<T> Registry<T> {
    /// Keys are unique, and the entries hold exactly the contents.
    pub closed spec fn wf(&self) -> bool {
        &&& forall|i: int, j: int|
            0 <= i < j < self.entries@.len() ==> #[trigger] self.entries@[i].0@
                != #[trigger] self.entries@[j].0@
        &&& forall|i: int|
            0 <= i < self.entries@.len() ==> self.contents@.contains_key(#[trigger] self.entries@[i].0@)
                && self.contents@[self.entries@[i].0@] == self.entries@[i].1
        &&& forall|k: Seq<char>|
            #[trigger] self.contents@.contains_key(k) ==> exists|i: int|
                0 <= i < self.entries@.len() && #[trigger] self.entries@[i].0@ == k
    }

    /// An empty registry.
    pub fn new() -> (r: Registry<T>)
        ensures
            r.wf(),
            r@ == Map::<Seq<char>, T>::empty(),
    {
        Registry { entries: Vec::new(), contents: Ghost(Map::empty()) }
    }

    /// The number of entries.
    pub fn len(&self) -> (r: usize)
        requires
            self.wf(),
        ensures
            r == self@.len(),
    {
        proof {
            self.lemma_len();
        }
        self.entries.len()
    }

    proof fn lemma_len(&self)
        requires
            self.wf(),
        ensures
            self@.dom().finite(),
            self@.len() == self.entries@.len(),
        decreases self.entries@.len(),
    {
        let keys = self.entries@.map_values(|e: (String, T)| e.0@);
        assert(keys.no_duplicates()) by {
            assert forall|i: int, j: int| 0 <= i < keys.len() && 0 <= j < keys.len() && i != j implies keys[i]
                != keys[j] by {
                if i < j {
                    assert(self.entries@[i].0@ != self.entries@[j].0@);
                } else {
                    assert(self.entries@[j].0@ != self.entries@[i].0@);
                }
            }
        }
        assert(keys.to_set() =~= self@.dom()) by {
            assert forall|k: Seq<char>| keys.to_set().contains(k) <==> self@.dom().contains(k) by {
                if self@.dom().contains(k) {
                    let i = choose|i: int| 0 <= i < self.entries@.len() && #[trigger] self.entries@[i].0@ == k;
                    assert(keys[i] == k);
                }
                if keys.to_set().contains(k) {
                    let i = choose|i: int| 0 <= i < keys.len() && keys[i] == k;
                    assert(self.entries@[i].0@ == k);
                }
            }
        }
        keys.unique_seq_to_set();
    }

    /// The position of `key` among the entries, if it is there.
    fn find(&self, key: &String) -> (r: Option<usize>)
        requires
            self.wf(),
        ensures
            r is None <==> !self@.contains_key(key@),
            r matches Some(i) ==> i < self.entries@.len() && self.entries@[i as int].0@ == key@,
    {
        let mut i: usize = 0;
        while i < self.entries.len()
            invariant
                self.wf(),
                0 <= i <= self.entries@.len(),
                forall|j: int| 0 <= j < i ==> self.entries@[j].0@ != key@,
            decreases self.entries@.len() - i,
        {
            if self.entries[i].0 == *key {
                return Some(i);
            }
            i = i + 1;
        }
        proof {
            if self@.contains_key(key@) {
                let j = choose|j: int| 0 <= j < self.entries@.len() && #[trigger] self.entries@[j].0@ == key@;
                assert(self.entries@[j].0@ == key@);
            }
        }
        None
    }

    /// Whether a value is registered under `key`.
    pub fn contains_key(&self, key: &String) -> (r: bool)
        requires
            self.wf(),
        ensures
            r == self@.contains_key(key@),
    {
        self.find(key).is_some()
    }

    /// The value registered under `key`, if any.
    pub fn get(&self, key: &String) -> (r: Option<&T>)
        requires
            self.wf(),
        ensures
            r is None <==> !self@.contains_key(key@),
            r matches Some(v) ==> *v == self@[key@],
    {
        match self.find(key) {
            Some(i) => Some(&self.entries[i].1),
            None => None,
        }
    }

    /// Registers `value` under `key`, replacing and returning what was there.
    pub fn insert(&mut self, key: String, value: T) -> (r: Option<T>)
        requires
            old(self).wf(),
        ensures
            final(self).wf(),
            final(self)@ == old(self)@.insert(key@, value),
            r is None <==> !old(self)@.contains_key(key@),
            r matches Some(v) ==> v == old(self)@[key@],
    {
        let ghost k = key@;
        let ghost v = value;
        match self.find(&key) {
            Some(i) => {
                let ghost before = self.entries@;
                let mut old_entry = (key, value);
                std::mem::swap(&mut self.entries[i], &mut old_entry);
                self.contents = Ghost(self.contents@.insert(k, v));
                proof {
                    assert(self.entries@ == before.update(i as int, self.entries@[i as int]));
                    assert forall|j: int| 0 <= j < self.entries@.len() implies self.contents@.contains_key(
                        #[trigger] self.entries@[j].0@,
                    ) && self.contents@[self.entries@[j].0@] == self.entries@[j].1 by {
                        if j != i {
                            assert(self.entries@[j] == before[j]);
                            assert(before[j].0@ != k);
                        }
                    }
                    assert forall|a: int, b: int| 0 <= a < b < self.entries@.len() implies #[trigger] self.entries@[a].0@
                        != #[trigger] self.entries@[b].0@ by {
                        assert(before[a].0@ != before[b].0@);
                    }
                    assert forall|q: Seq<char>| #[trigger] self.contents@.contains_key(q) implies exists|j: int|
                        0 <= j < self.entries@.len() && #[trigger] self.entries@[j].0@ == q by {
                        if q == k {
                            assert(self.entries@[i as int].0@ == q);
                        } else {
                            let j = choose|j: int| 0 <= j < before.len() && #[trigger] before[j].0@ == q;
                            assert(self.entries@[j].0@ == q);
                        }
                    }
                }
                Some(old_entry.1)
            },
            None => {
                let ghost before = self.entries@;
                self.entries.push((key, value));
                self.contents = Ghost(self.contents@.insert(k, v));
                proof {
                    let n = before.len() as int;
                    assert forall|j: int| 0 <= j < self.entries@.len() implies self.contents@.contains_key(
                        #[trigger] self.entries@[j].0@,
                    ) && self.contents@[self.entries@[j].0@] == self.entries@[j].1 by {
                        if j < n {
                            assert(self.entries@[j] == before[j]);
                            assert(old(self).contents@.contains_key(before[j].0@));
                        }
                    }
                    assert forall|a: int, b: int| 0 <= a < b < self.entries@.len() implies #[trigger] self.entries@[a].0@
                        != #[trigger] self.entries@[b].0@ by {
                        if b == n {
                            assert(old(self).contents@.contains_key(before[a].0@));
                        } else {
                            assert(before[a].0@ != before[b].0@);
                        }
                    }
                    assert forall|q: Seq<char>| #[trigger] self.contents@.contains_key(q) implies exists|j: int|
                        0 <= j < self.entries@.len() && #[trigger] self.entries@[j].0@ == q by {
                        if q == k {
                            assert(self.entries@[n].0@ == q);
                        } else {
                            let j = choose|j: int| 0 <= j < before.len() && #[trigger] before[j].0@ == q;
                            assert(self.entries@[j].0@ == q);
                        }
                    }
                }
                None
            },
        }
    }

    /// Removes and returns the value registered under `key`, if any.
    pub fn remove(&mut self, key: &String) -> (r: Option<T>)
        requires
            old(self).wf(),
        ensures
            final(self).wf(),
            final(self)@ == old(self)@.remove(key@),
            r is None <==> !old(self)@.contains_key(key@),
            r matches Some(v) ==> v == old(self)@[key@],
    {
        match self.find(key) {
            None => {
                proof {
                    assert(self@.remove(key@) =~= self@);
                }
                None
            },
            Some(i) => {
                let ghost before = self.entries@;
                let ghost k = key@;
                let entry = self.entries.remove(i);
                self.contents = Ghost(self.contents@.remove(k));
                proof {
                    let at = |j: int| if j < i { j } else { j + 1 };
                    assert forall|j: int| 0 <= j < self.entries@.len() implies self.entries@[j] == before[at(
                        j,
                    )] by {}
                    assert forall|a: int, b: int| 0 <= a < b < self.entries@.len() implies #[trigger] self.entries@[a].0@
                        != #[trigger] self.entries@[b].0@ by {
                        assert(self.entries@[a] == before[at(a)] && self.entries@[b] == before[at(b)]);
                        assert(before[at(a)].0@ != before[at(b)].0@);
                    }
                    assert forall|j: int| 0 <= j < self.entries@.len() implies self.contents@.contains_key(
                        #[trigger] self.entries@[j].0@,
                    ) && self.contents@[self.entries@[j].0@] == self.entries@[j].1 by {
                        assert(self.entries@[j] == before[at(j)]);
                        if at(j) < i {
                            assert(before[at(j)].0@ != before[i as int].0@);
                        } else {
                            assert(before[i as int].0@ != before[at(j)].0@);
                        }
                        assert(old(self).contents@.contains_key(before[at(j)].0@));
                    }
                    assert forall|q: Seq<char>| #[trigger] self.contents@.contains_key(q) implies exists|j: int|
                        0 <= j < self.entries@.len() && #[trigger] self.entries@[j].0@ == q by {
                        assert(old(self).contents@.contains_key(q));
                        let m = choose|m: int| 0 <= m < before.len() && #[trigger] before[m].0@ == q;
                        assert(m != i);
                        if m < i {
                            assert(self.entries@[m] == before[m]);
                        } else {
                            assert(self.entries@[m - 1] == before[m]);
                        }
                    }
                }
                Some(entry.1)
            },
        }
    }
}

} // verus!
