use vstd::prelude::*;
use crate::address::SameKey;

verus! {

/// A store of records keyed by their address: each key holds at most one record.
pub struct Table<K, V> {
    keys: Vec<K>,
    vals: Vec<V>,
}

impl<K: SameKey, V> Table<K, V> {
    /// Keys and records line up, and no key occurs twice.
    pub closed spec fn wf(&self) -> bool {
        &&& self.keys@.len() == self.vals@.len()
        &&& forall|i: int, j: int|
            0 <= i < self.keys@.len() && 0 <= j < self.keys@.len() && i != j ==> self.keys@[i]
                != self.keys@[j]
    }

    /// The records, by key.
    pub closed spec fn view(&self) -> Map<K, V> {
        Map::new(
            |k: K| exists|i: int| 0 <= i < self.keys@.len() && self.keys@[i] == k,
            |k: K| self.vals@[choose|i: int| 0 <= i < self.keys@.len() && self.keys@[i] == k],
        )
    }

    proof fn lemma_view_at(&self, i: int)
        requires
            self.wf(),
            0 <= i < self.keys@.len(),
        ensures
            self@.contains_key(self.keys@[i]),
            self@[self.keys@[i]] == self.vals@[i],
    {
        let k = self.keys@[i];
        assert(exists|j: int| 0 <= j < self.keys@.len() && self.keys@[j] == k);
        let j = choose|j: int| 0 <= j < self.keys@.len() && self.keys@[j] == k;
        assert(i == j);
    }

    /// An empty store.
    pub fn new() -> (r: Self)
        ensures
            r.wf(),
            r@ == Map::<K, V>::empty(),
    {
        let r = Table { keys: Vec::new(), vals: Vec::new() };
        assert(r@ =~= Map::<K, V>::empty());
        r
    }

    /// The position of `k`, if it is stored.
    fn find(&self, k: &K) -> (r: Option<usize>)
        requires
            self.wf(),
        ensures
            r is None ==> !self@.contains_key(*k),
            r is Some ==> r->0 < self.keys@.len() && self.keys@[r->0 as int] == *k,
    {
        let mut i: usize = 0;
        while i < self.keys.len()
            invariant
                self.wf(),
                i <= self.keys@.len(),
                forall|j: int| 0 <= j < i ==> self.keys@[j] != *k,
            decreases self.keys@.len() - i,
        {
            if self.keys[i].same_key(k) {
                return Some(i);
            }
            i = i + 1;
        }
        None
    }

    /// Whether a record is stored at `k`.
    pub fn contains(&self, k: &K) -> (r: bool)
        requires
            self.wf(),
        ensures
            r == self@.contains_key(*k),
    {
        match self.find(k) {
            Some(i) => {
                proof {
                    self.lemma_view_at(i as int);
                }
                true
            },
            None => false,
        }
    }

    /// The record stored at `k`, if any.
    pub fn get(&self, k: &K) -> (r: Option<&V>)
        requires
            self.wf(),
        ensures
            r is None <==> !self@.contains_key(*k),
            r is Some ==> self@.contains_key(*k) && *r->0 == self@[*k],
    {
        match self.find(k) {
            Some(i) => {
                proof {
                    self.lemma_view_at(i as int);
                }
                Some(&self.vals[i])
            },
            None => None,
        }
    }

    /// The stored keys and their records, position by position, in no particular order.
    pub fn entries(&self) -> (r: (&Vec<K>, &Vec<V>))
        requires
            self.wf(),
        ensures
            r.0@.len() == r.1@.len(),
            forall|i: int|
                0 <= i < r.0@.len() ==> #[trigger] self@.contains_key(r.0@[i]) && self@[r.0@[i]]
                    == r.1@[i],
            forall|k: K|
                #[trigger] self@.contains_key(k) ==> exists|i: int| 0 <= i < r.0@.len() && r.0@[i] == k,
    {
        proof {
            assert forall|i: int| 0 <= i < self.keys@.len() implies #[trigger] self@.contains_key(
                self.keys@[i],
            ) && self@[self.keys@[i]] == self.vals@[i] by {
                self.lemma_view_at(i);
            }
        }
        (&self.keys, &self.vals)
    }

    /// Takes the record stored at `k` out of the store.
    pub fn remove(&mut self, k: &K) -> (r: Option<V>)
        requires
            old(self).wf(),
        ensures
            final(self).wf(),
            final(self)@ == old(self)@.remove(*k),
            r is None <==> !old(self)@.contains_key(*k),
            r is Some ==> r->0 == old(self)@[*k],
    {
        match self.find(k) {
            None => {
                proof {
                    assert(self@ =~= self@.remove(*k));
                }
                None
            },
            Some(i) => {
                proof {
                    self.lemma_view_at(i as int);
                }
                let ghost old_keys = self.keys@;
                let ghost old_vals = self.vals@;
                let ghost old_view = self@;
                self.keys.remove(i);
                let v = self.vals.remove(i);
                proof {
                    assert forall|a: int, b: int|
                        0 <= a < self.keys@.len() && 0 <= b < self.keys@.len() && a != b implies self.keys@[a]
                            != self.keys@[b] by {
                        let a0 = if a < i { a } else { a + 1 };
                        let b0 = if b < i { b } else { b + 1 };
                        assert(old_keys[a0] != old_keys[b0]);
                    }
                    assert forall|j: int| 0 <= j < self.keys@.len() implies self.keys@[j] != *k by {
                        let j0 = if j < i { j } else { j + 1 };
                        assert(old_keys[j0] != old_keys[i as int]);
                    }
                    assert forall|key: K| #[trigger] self@.contains_key(key) <==> old_view.remove(
                        *k,
                    ).contains_key(key) by {
                        if self@.contains_key(key) {
                            let j = choose|j: int| 0 <= j < self.keys@.len() && self.keys@[j] == key;
                            let j0 = if j < i { j } else { j + 1 };
                            self.lemma_view_at(j);
                            assert(old_keys[j0] == key);
                        }
                        if old_view.remove(*k).contains_key(key) {
                            let j0 = choose|j: int| 0 <= j < old_keys.len() && old_keys[j] == key;
                            let j = if j0 < i { j0 } else { j0 - 1 };
                            assert(self.keys@[j] == key);
                        }
                    }
                    assert forall|key: K| #[trigger] self@.contains_key(key) implies self@[key]
                        == old_view[key] by {
                        let j = choose|j: int| 0 <= j < self.keys@.len() && self.keys@[j] == key;
                        let j0 = if j < i { j } else { j + 1 };
                        self.lemma_view_at(j);
                        assert(old_keys[j0] == key);
                        assert(old_vals[j0] == self.vals@[j]);
                        assert(old_view[old_keys[j0]] == old_vals[j0]) by {
                            let jj = choose|jj: int| 0 <= jj < old_keys.len() && old_keys[jj] == key;
                            assert(jj == j0);
                        }
                    }
                    assert(self@ =~= old_view.remove(*k));
                }
                Some(v)
            },
        }
    }

    /// Stores `v` at `k`, which holds no record yet.
    pub fn insert_new(&mut self, k: K, v: V)
        requires
            old(self).wf(),
            !old(self)@.contains_key(k),
        ensures
            final(self).wf(),
            final(self)@ == old(self)@.insert(k, v),
    {
        let ghost old_keys = self.keys@;
        let ghost old_vals = self.vals@;
        let ghost old_view = self@;
        let ghost n = self.keys@.len() as int;
        self.keys.push(k);
        self.vals.push(v);
        proof {
            assert forall|j: int| 0 <= j < n implies old_keys[j] != k by {
                if old_keys[j] == k {
                    assert(old_view.contains_key(k));
                }
            }
            assert forall|key: K| #[trigger] self@.contains_key(key) <==> old_view.insert(
                k,
                v,
            ).contains_key(key) by {
                if self@.contains_key(key) && key != k {
                    let j = choose|j: int| 0 <= j < self.keys@.len() && self.keys@[j] == key;
                    assert(j < n);
                    assert(old_keys[j] == key);
                }
                if old_view.contains_key(key) {
                    let j = choose|j: int| 0 <= j < old_keys.len() && old_keys[j] == key;
                    assert(self.keys@[j] == key);
                }
                if key == k {
                    assert(self.keys@[n] == k);
                }
            }
            assert forall|key: K| #[trigger] self@.contains_key(key) implies self@[key]
                == old_view.insert(k, v)[key] by {
                let j = choose|j: int| 0 <= j < self.keys@.len() && self.keys@[j] == key;
                self.lemma_view_at(j);
                if key != k {
                    assert(j < n);
                    assert(old_view[old_keys[j]] == old_vals[j]) by {
                        let jj = choose|jj: int| 0 <= jj < old_keys.len() && old_keys[jj] == key;
                        assert(jj == j);
                    }
                } else {
                    assert(self.keys@[n] == k);
                    self.lemma_view_at(n);
                }
            }
            assert(self@ =~= old_view.insert(k, v));
        }
    }

    /// Stores `v` at `k`, replacing any record there.
    pub fn put(&mut self, k: K, v: V)
        requires
            old(self).wf(),
        ensures
            final(self).wf(),
            final(self)@ == old(self)@.insert(k, v),
    {
        let _ = self.remove(&k);
        self.insert_new(k, v);
        proof {
            assert(self@ =~= old(self)@.insert(k, v));
        }
    }
}

} // verus!
