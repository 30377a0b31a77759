//! A small in-memory key-value store.
//!
//! The store keeps one value per key; setting an existing key
//! replaces its value. It is the in-memory structure the log's
//! entries are replayed into.

use vstd::prelude::*;

verus! {

use vstd::string::StringExecFns;

/// A simple in-memory key-value store.
pub struct KeyValueStore {
    data: Vec<(String, String)>,
}

impl KeyValueStore {
    /// The store's contents as a sequence of key/value pairs.
    pub closed spec fn spec_pairs(&self) -> Seq<(Seq<char>, Seq<char>)> {
        self.data@.map_values(|p: (String, String)| (p.0@, p.1@))
    }

    /// Whether the store holds the key.
    pub open spec fn spec_contains(&self, k: Seq<char>) -> bool {
        exists|i: int| 0 <= i < self.spec_pairs().len() && self.spec_pairs()[i].0 == k
    }

    /// Whether the store holds exactly this key/value pair.
    pub open spec fn spec_contains_pair(&self, k: Seq<char>, v: Seq<char>) -> bool {
        exists|i: int| 0 <= i < self.spec_pairs().len() && self.spec_pairs()[i] == (k, v)
    }

    /// Well-formedness: each key appears at most once, so the store
    /// is a map.
    pub open spec fn wf(&self) -> bool {
        forall|i: int, j: int|
            0 <= i < j < self.spec_pairs().len() ==> self.spec_pairs()[i].0
                != self.spec_pairs()[j].0
    }

    /// Creates a new, empty key-value store.
    pub fn new() -> (r: Self)
        ensures
            r.wf(),
            r.spec_pairs().len() == 0,
    {
        let r = KeyValueStore { data: Vec::new() };
        proof {
            assert(r.spec_pairs() =~= Seq::<(Seq<char>, Seq<char>)>::empty());
        }
        r
    }

    /// Stores a key/value pair; an existing value under the key is
    /// replaced. Every other key keeps its value, and the store grows
    /// by one pair exactly when the key was new.
    pub fn set(&mut self, key: String, value: String)
        requires
            old(self).wf(),
        ensures
            final(self).wf(),
            final(self).spec_contains_pair(key@, value@),
            forall|k: Seq<char>, v: Seq<char>|
                k != key@ ==> (final(self).spec_contains_pair(k, v) <==> old(
                    self,
                ).spec_contains_pair(k, v)),
            forall|k: Seq<char>|
                k != key@ ==> (final(self).spec_contains(k) <==> old(self).spec_contains(k)),
            final(self).spec_pairs().len() == old(self).spec_pairs().len() + (if old(
                self,
            ).spec_contains(key@) {
                0int
            } else {
                1int
            }),
    {
        let n = self.data.len();
        let mut i: usize = 0;
        while i < n
            invariant
                self == old(self),
                old(self).wf(),
                n == self.data@.len(),
                i <= n,
                forall|j: int| 0 <= j < i ==> self.spec_pairs()[j].0 != key@,
            decreases n - i,
        {
            if self.data[i].0 == key {
                let ghost before = self.spec_pairs();
                proof {
                    assert(before[i as int].0 == key@);
                }
                self.data.set(i, (key, value));
                proof {
                    assert(self.spec_pairs() =~= before.update(i as int, (key@, value@)));
                    assert(self.spec_pairs()[i as int] == (key@, value@));
                    assert(forall|j: int|
                        0 <= j < self.spec_pairs().len() && j != i ==> self.spec_pairs()[j]
                            == before[j]);
                    assert(old(self).spec_contains(key@));
                    assert forall|a: int, b: int|
                        0 <= a < b < self.spec_pairs().len() implies self.spec_pairs()[a].0
                        != self.spec_pairs()[b].0 by {
                        assert(before == old(self).spec_pairs());
                        assert(self.spec_pairs().len() == before.len());
                        assert(old(self).spec_pairs()[a].0 != old(self).spec_pairs()[b].0);
                        assert(before[a].0 != before[b].0);
                        assert(self.spec_pairs()[a].0 == before[a].0);
                        assert(self.spec_pairs()[b].0 == before[b].0);
                    }
                }
                return ;
            }
            i += 1;
        }
        let ghost before = self.spec_pairs();
        self.data.push((key, value));
        proof {
            assert(self.spec_pairs() =~= before.push((key@, value@)));
            assert(self.spec_pairs()[before.len() as int] == (key@, value@));
            assert(!old(self).spec_contains(key@));
            assert forall|k: Seq<char>, v: Seq<char>|
                k != key@ implies (self.spec_contains_pair(k, v) <==> old(self).spec_contains_pair(
                k,
                v,
            )) by {
                if self.spec_contains_pair(k, v) {
                    let m = choose|m: int|
                        0 <= m < self.spec_pairs().len() && self.spec_pairs()[m] == (k, v);
                    if m < before.len() {
                        assert(before[m] == (k, v));
                    } else {
                        assert(self.spec_pairs()[m].0 == key@);
                    }
                }
                if old(self).spec_contains_pair(k, v) {
                    let m = choose|m: int| 0 <= m < before.len() && before[m] == (k, v);
                    assert(self.spec_pairs()[m] == (k, v));
                }
            }
            assert forall|k: Seq<char>|
                k != key@ implies (self.spec_contains(k) <==> old(self).spec_contains(k)) by {
                if self.spec_contains(k) {
                    let m = choose|m: int|
                        0 <= m < self.spec_pairs().len() && self.spec_pairs()[m].0 == k;
                    if m < before.len() {
                        assert(before[m].0 == k);
                    } else {
                        assert(self.spec_pairs()[m].0 == key@);
                    }
                }
                if old(self).spec_contains(k) {
                    let m = choose|m: int| 0 <= m < before.len() && before[m].0 == k;
                    assert(self.spec_pairs()[m].0 == k);
                }
            }
        }
    }

    /// Retrieves the value stored under a key, or `None` when the key
    /// is absent.
    pub fn get(&self, key: &str) -> (r: Option<String>)
        requires
            self.wf(),
        ensures
            (r is Some) <==> self.spec_contains(key@),
            r matches Some(v) ==> self.spec_contains_pair(key@, v@),
    {
        let wanted: String = key.to_owned();
        let n = self.data.len();
        let mut i: usize = 0;
        while i < n
            invariant
                wanted@ == key@,
                n == self.data@.len(),
                i <= n,
                forall|j: int| 0 <= j < i ==> self.spec_pairs()[j].0 != key@,
            decreases n - i,
        {
            if self.data[i].0 == wanted {
                let v = self.data[i].1.clone();
                proof {
                    assert(self.spec_pairs()[i as int] == (key@, v@));
                }
                return Some(v);
            }
            i += 1;
        }
        None
    }

    /// The number of key-value pairs in the store.
    pub fn len(&self) -> (r: usize)
        ensures
            r == self.spec_pairs().len(),
    {
        self.data.len()
    }

    /// Whether the store holds no pairs at all.
    pub fn is_empty(&self) -> (r: bool)
        ensures
            r == (self.spec_pairs().len() == 0),
    {
        self.data.is_empty()
    }
}

} // verus!
