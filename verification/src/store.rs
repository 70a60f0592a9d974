//! The keyed variant of the state: signed 32-bit values under string keys,
//! each key at most once.

use vstd::prelude::*;
use vstd::string::StringExecFns;

verus! {

/// The key under which the instance's own counter is kept.
pub open spec fn counter_key() -> Seq<char> {
    "counter"@
}

/// Values under string keys.
pub struct KeyedStore {
    entries: Vec<(String, i32)>,
}

impl KeyedStore {
    /// No key occurs twice.
    pub closed spec fn wf(&self) -> bool {
        forall|i: int, j: int|
            0 <= i < j < self.entries@.len() ==> self.entries@[i].0@ != self.entries@[j].0@
    }

    /// Whether the entry at `i` is the one for `key`.
    pub closed spec fn holds_at(&self, key: Seq<char>, i: int) -> bool {
        0 <= i < self.entries@.len() && self.entries@[i].0@ == key
    }

    /// The mapping that the store holds.
    pub closed spec fn view(&self) -> Map<Seq<char>, i32> {
        Map::new(
            |k: Seq<char>| exists|i: int| self.holds_at(k, i),
            |k: Seq<char>| self.entries@[choose|i: int| self.holds_at(k, i)].1,
        )
    }

    /// An empty store.
    pub fn new() -> (s: KeyedStore)
        ensures
            s.wf(),
            s@ == Map::<Seq<char>, i32>::empty(),
    {
        let s = KeyedStore { entries: Vec::new() };
        assert(s@ =~= Map::<Seq<char>, i32>::empty());
        s
    }

    /// The position of the entry for `key`, if there is one.
    fn position(&self, key: &String) -> (at: Option<usize>)
        requires
            self.wf(),
        ensures
            match at {
                Some(i) => self.holds_at(key@, i as int),
                None => forall|i: int| !self.holds_at(key@, i),
            },
    {
        let mut i: usize = 0;
        while i < self.entries.len()
            invariant
                i <= self.entries@.len(),
                forall|j: int| 0 <= j < i ==> self.entries@[j].0@ != key@,
            decreases self.entries@.len() - i,
        {
            if self.entries[i].0 == *key {
                return Some(i);
            }
            i += 1;
        }
        None
    }

    /// The value under `key`, if the store holds one.
    pub fn get(&self, key: &str) -> (found: Option<i32>)
        requires
            self.wf(),
        ensures
            found == if self@.contains_key(key@) {
                Some(self@[key@])
            } else {
                None
            },
    {
        let owned = String::from_str(key);
        match self.position(&owned) {
            Some(i) => {
                proof {
                    self.lemma_entry_is_value(key@, i as int);
                }
                Some(self.entries[i].1)
            },
            None => None,
        }
    }

    /// Puts `value` under `key`, in place of any value that was there.
    pub fn insert(&mut self, key: &str, value: i32)
        requires
            old(self).wf(),
        ensures
            final(self).wf(),
            final(self)@ == old(self)@.insert(key@, value),
    {
        let owned = String::from_str(key);
        match self.position(&owned) {
            Some(i) => {
                self.entries.set(i, (owned, value));
                proof {
                    let (before, after) = (*old(self), *final(self));
                    assert forall|k: Seq<char>, j: int| after.holds_at(k, j) == before.holds_at(
                        k,
                        j,
                    ) by {}
                    assert(after.wf());
                    assert forall|k: Seq<char>| after@.contains_key(k) implies #[trigger] after@[k]
                        == before@.insert(key@, value)[k] by {
                        let j = choose|j: int| after.holds_at(k, j);
                        after.lemma_entry_is_value(k, j);
                        before.lemma_entry_is_value(k, j);
                    }
                    assert(before.holds_at(key@, i as int));
                    assert(after@ =~= before@.insert(key@, value));
                }
            },
            None => {
                self.entries.push((owned, value));
                proof {
                    let (before, after) = (*old(self), *final(self));
                    let last = before.entries@.len() as int;
                    assert(after.holds_at(key@, last));
                    assert forall|k: Seq<char>, j: int| after.holds_at(k, j) == (before.holds_at(
                        k,
                        j,
                    ) || (j == last && k == key@)) by {}
                    assert(after.wf()) by {
                        assert forall|a: int, b: int|
                            0 <= a < b < after.entries@.len() implies after.entries@[a].0@
                            != after.entries@[b].0@ by {
                            if b == last {
                                assert(!before.holds_at(key@, a));
                            }
                        }
                    }
                    assert forall|k: Seq<char>| after@.contains_key(k) implies #[trigger] after@[k]
                        == before@.insert(key@, value)[k] by {
                        let j = choose|j: int| after.holds_at(k, j);
                        after.lemma_entry_is_value(k, j);
                        if k != key@ {
                            before.lemma_entry_is_value(k, j);
                        } else {
                            after.lemma_entry_is_value(k, last);
                        }
                    }
                    assert(after@ =~= before@.insert(key@, value));
                }
            },
        }
    }

    /// In a store without duplicates, the entry found for a key is the
    /// one the mapping speaks of.
    proof fn lemma_entry_is_value(&self, key: Seq<char>, i: int)
        requires
            self.wf(),
            self.holds_at(key, i),
        ensures
            self@.contains_key(key),
            self@[key] == self.entries@[i].1,
    {
        let c = choose|j: int| self.holds_at(key, j);
        assert(self.holds_at(key, c));
        if c < i {
            assert(self.entries@[c].0@ != self.entries@[i].0@);
        } else if i < c {
            assert(self.entries@[i].0@ != self.entries@[c].0@);
        }
    }
}

} // verus!
