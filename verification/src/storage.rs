//! A keyed map with at most one entry per key.

use vstd::prelude::*;

verus! {

/// A key that can be compared at run time with the meaning of equal views.
pub trait StorageKey: View + Sized {
    /// Whether the two keys have the same view.
    fn key_eq(&self, other: &Self) -> (r: bool)
        ensures
            r == (self@ == other@),
    ;
}

impl StorageKey for u64 {
    fn key_eq(&self, other: &Self) -> (r: bool) {
        *self == *other
    }
}

/// Whether two byte strings hold the same bytes.
pub fn bytes_eq(a: &Vec<u8>, b: &Vec<u8>) -> (r: bool)
    ensures
        r == (a@ == b@),
{
    if a.len() != b.len() {
        return false;
    }
    let mut i: usize = 0;
    while i < a.len()
        invariant
            a@.len() == b@.len(),
            i <= a@.len(),
            forall|j: int| 0 <= j < i ==> a@[j] == b@[j],
        decreases a@.len() - i,
    {
        if a[i] != b[i] {
            return false;
        }
        i = i + 1;
    }
    assert(a@ =~= b@);
    true
}

impl StorageKey for Vec<u8> {
    fn key_eq(&self, other: &Self) -> (r: bool) {
        bytes_eq(self, other)
    }
}

/// A map from keys to values, seen through the views of both.
#[derive(Clone, Debug, PartialEq, Eq)]
pub struct StorageMap<K, V> {
    keys: Vec<K>,
    values: Vec<V>,
}

impl<K: StorageKey, V> StorageMap<K, V> {
    /// Whether slot `i` holds the key `k`.
    spec fn holds(&self, i: int, k: K::V) -> bool {
        0 <= i < self.keys@.len() && self.keys@[i]@ == k
    }

    /// The stored values themselves, by the view of their key.
    pub closed spec fn raw(&self) -> Map<K::V, V> {
        Map::new(
            |k: K::V| exists|i: int| self.holds(i, k),
            |k: K::V| self.values@[choose|i: int| self.holds(i, k)],
        )
    }

    /// No key is held twice, and every key has its value.
    pub closed spec fn wf(&self) -> bool {
        &&& self.keys@.len() == self.values@.len()
        &&& forall|i: int, j: int|
            0 <= i < self.keys@.len() && 0 <= j < self.keys@.len() && i != j
                ==> self.keys@[i]@ != self.keys@[j]@
    }

    /// The slot `i` of a well-formed map is what the view gives for its key.
    proof fn lemma_slot(&self, i: int)
        requires
            self.wf(),
            0 <= i < self.keys@.len(),
        ensures
            self.raw().dom().contains(self.keys@[i]@),
            self.raw()[self.keys@[i]@] == self.values@[i],
    {
        let k = self.keys@[i]@;
        assert(self.holds(i, k));
        let c = choose|j: int| self.holds(j, k);
        assert(self.holds(c, k));
        assert(c == i);
    }

    /// An empty map.
    pub fn new() -> (r: Self)
        ensures
            r.wf(),
            r.raw() == Map::<K::V, V>::empty(),
    {
        let r = StorageMap { keys: Vec::new(), values: Vec::new() };
        assert(r.raw() =~= Map::<K::V, V>::empty());
        r
    }

    /// The slot that holds `key`, if any does.
    fn find(&self, key: &K) -> (r: Option<usize>)
        requires
            self.wf(),
        ensures
            match r {
                Some(i) => self.holds(i as int, key@),
                None => forall|j: int| !self.holds(j, key@),
            },
    {
        let mut i: usize = 0;
        while i < self.keys.len()
            invariant
                i <= self.keys@.len(),
                forall|j: int| 0 <= j < i ==> self.keys@[j]@ != key@,
            decreases self.keys@.len() - i,
        {
            if self.keys[i].key_eq(key) {
                return Some(i);
            }
            i = i + 1;
        }
        None
    }

    /// Whether the map has an entry for `key`.
    pub fn contains_key(&self, key: &K) -> (r: bool)
        requires
            self.wf(),
        ensures
            r == self.raw().dom().contains(key@),
    {
        match self.find(key) {
            Some(i) => {
                proof {
                    self.lemma_slot(i as int);
                }
                true
            },
            None => false,
        }
    }

    /// The value stored for `key`, if there is one.
    pub fn get(&self, key: &K) -> (r: Option<&V>)
        requires
            self.wf(),
        ensures
            match r {
                Some(v) => self.raw().dom().contains(key@) && *v == self.raw()[key@],
                None => !self.raw().dom().contains(key@),
            },
    {
        match self.find(key) {
            Some(i) => {
                proof {
                    self.lemma_slot(i as int);
                }
                Some(&self.values[i])
            },
            None => None,
        }
    }

    /// Stores `value` for `key`, in place of whatever was stored for it.
    pub fn insert(&mut self, key: K, value: V)
        requires
            old(self).wf(),
        ensures
            final(self).wf(),
            final(self).raw() == old(self).raw().insert(key@, value),
    {
        let ghost before = *self;
        let ghost after = before.raw().insert(key@, value);
        match self.find(&key) {
            Some(i) => {
                self.values.set(i, value);
                proof {
                    assert(self.wf());
                    assert forall|k: K::V| #[trigger]
                        self.raw().dom().contains(k) == after.dom().contains(k) by {
                        if before.raw().dom().contains(k) {
                            let c = choose|j: int| before.holds(j, k);
                            assert(self.holds(c, k));
                        }
                        if self.raw().dom().contains(k) {
                            let c = choose|j: int| self.holds(j, k);
                            assert(before.holds(c, k));
                        }
                        if k == key@ {
                            assert(self.holds(i as int, k));
                        }
                    }
                    assert forall|k: K::V| self.raw().dom().contains(k) implies #[trigger]
                        self.raw()[k] == after[k] by {
                        let c = choose|j: int| self.holds(j, k);
                        assert(self.holds(c, k));
                        self.lemma_slot(c);
                        if c != i {
                            before.lemma_slot(c);
                        }
                    }
                    assert(self.raw() =~= after);
                }
            },
            None => {
                self.keys.push(key);
                self.values.push(value);
                proof {
                    let n = before.keys@.len() as int;
                    assert(self.wf()) by {
                        assert forall|i: int, j: int|
                            0 <= i < self.keys@.len() && 0 <= j < self.keys@.len() && i != j
                            implies self.keys@[i]@ != self.keys@[j]@ by {
                            if i == n {
                                assert(!before.holds(j, key@));
                            }
                            if j == n {
                                assert(!before.holds(i, key@));
                            }
                        }
                    }
                    assert forall|k: K::V| #[trigger]
                        self.raw().dom().contains(k) == after.dom().contains(k) by {
                        if before.raw().dom().contains(k) {
                            let c = choose|j: int| before.holds(j, k);
                            assert(self.holds(c, k));
                        }
                        if self.raw().dom().contains(k) {
                            let c = choose|j: int| self.holds(j, k);
                            if c != n {
                                assert(before.holds(c, k));
                            }
                        }
                        if k == key@ {
                            assert(self.holds(n, k));
                        }
                    }
                    assert forall|k: K::V| self.raw().dom().contains(k) implies #[trigger]
                        self.raw()[k] == after[k] by {
                        let c = choose|j: int| self.holds(j, k);
                        assert(self.holds(c, k));
                        self.lemma_slot(c);
                        if c != n {
                            before.lemma_slot(c);
                        }
                    }
                    assert(self.raw() =~= after);
                }
            },
        }
    }

    /// The number of entries.
    pub fn len(&self) -> (r: usize)
        requires
            self.wf(),
        ensures
            r == self.raw().dom().len(),
            self.raw().dom().finite(),
    {
        proof {
            self.lemma_dom_len(self.keys@.len() as int);
            assert(self.dom_upto(self.keys@.len() as int) =~= self.raw().dom());
        }
        self.keys.len()
    }

    /// The keys held in the first `n` slots.
    spec fn dom_upto(&self, n: int) -> Set<K::V> {
        Set::new(|k: K::V| exists|i: int| 0 <= i < n && self.holds(i, k))
    }

    /// The first `n` slots hold `n` different keys.
    proof fn lemma_dom_len(&self, n: int)
        requires
            self.wf(),
            0 <= n <= self.keys@.len(),
        ensures
            self.dom_upto(n).finite(),
            self.dom_upto(n).len() == n,
        decreases n,
    {
        if n == 0 {
            assert(self.dom_upto(0) =~= Set::<K::V>::empty());
        } else {
            self.lemma_dom_len(n - 1);
            let k = self.keys@[n - 1]@;
            assert(self.holds(n - 1, k));
            assert(self.dom_upto(n) =~= self.dom_upto(n - 1).insert(k)) by {
                assert forall|x: K::V| self.dom_upto(n).contains(x) implies self.dom_upto(
                    n - 1,
                ).insert(k).contains(x) by {
                    let i = choose|i: int| 0 <= i < n && self.holds(i, x);
                    if i != n - 1 {
                        assert(0 <= i < n - 1 && self.holds(i, x));
                    }
                }
                assert forall|x: K::V| self.dom_upto(n - 1).insert(k).contains(
                    x,
                ) implies self.dom_upto(n).contains(x) by {
                    if x == k {
                        assert(0 <= n - 1 < n && self.holds(n - 1, x));
                    } else {
                        let i = choose|i: int| 0 <= i < n - 1 && self.holds(i, x);
                        assert(0 <= i < n && self.holds(i, x));
                    }
                }
            }
            assert(!self.dom_upto(n - 1).contains(k)) by {
                if self.dom_upto(n - 1).contains(k) {
                    let i = choose|i: int| 0 <= i < n - 1 && self.holds(i, k);
                    assert(self.keys@[i]@ == self.keys@[n - 1]@);
                }
            }
        }
    }
}

/// The map that gives, for each key of `m`, the view of its value.
pub open spec fn value_views<K, V: View>(m: Map<K, V>) -> Map<K, V::V> {
    Map::new(|k: K| m.dom().contains(k), |k: K| m[k]@)
}

/// Storing a value and then taking views is storing its view.
pub proof fn lemma_value_views_insert<K, V: View>(m: Map<K, V>, k: K, v: V)
    ensures
        value_views(m.insert(k, v)) == value_views(m).insert(k, v@),
{
    assert(value_views(m.insert(k, v)) =~= value_views(m).insert(k, v@));
}

impl<K: StorageKey, V: View> View for StorageMap<K, V> {
    type V = Map<K::V, V::V>;

    open spec fn view(&self) -> Map<K::V, V::V> {
        value_views(self.raw())
    }
}

} // verus!
