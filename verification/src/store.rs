//! Keyed storage: sets and maps whose keys are compared by their views.

use vstd::prelude::*;

verus! {

/// Compares two byte strings element by element.
pub fn bytes_equal(a: &Vec<u8>, b: &Vec<u8>) -> (r: bool)
    ensures
        r == (a@ == b@),
{
    if a.len() != b.len() {
        return false;
    }
    let mut i: usize = 0;
    while i < a.len()
        invariant
            i <= a.len(),
            a.len() == b.len(),
            forall|j: int| 0 <= j < i ==> a@[j] == b@[j],
        decreases a.len() - i,
    {
        if a[i] != b[i] {
            return false;
        }
        i += 1;
    }
    assert(a@ =~= b@);
    true
}

/// A storage key: compared and copied by its view.
pub trait StorageKey: View + Sized {
    fn same_key(&self, other: &Self) -> (r: bool)
        ensures
            r == (self@ == other@),
    ;

    fn copy_key(&self) -> (r: Self)
        ensures
            r@ == self@,
    ;
}

impl StorageKey for Vec<u8> {
    fn same_key(&self, other: &Self) -> (r: bool) {
        bytes_equal(self, other)
    }

    fn copy_key(&self) -> (r: Self) {
        let r = self.clone();
        assert(r@ =~= self@);
        r
    }
}

impl StorageKey for (Vec<u8>, Vec<u8>) {
    fn same_key(&self, other: &Self) -> (r: bool) {
        bytes_equal(&self.0, &other.0) && bytes_equal(&self.1, &other.1)
    }

    fn copy_key(&self) -> (r: Self) {
        (self.0.copy_key(), self.1.copy_key())
    }
}

/// A set of keys, stored without repetition.
pub struct KeySet<K: StorageKey> {
    items: Vec<K>,
}

impl<K: StorageKey> View for KeySet<K> {
    type V = Set<K::V>;

    closed spec fn view(&self) -> Set<K::V> {
        Set::new(|x: K::V| exists|i: int| 0 <= i < self.items.len() && #[trigger] self.items@[i]@ == x)
    }
}

impl<K: StorageKey> KeySet<K> {
    /// The keys in the order in which they are kept.
    pub closed spec fn seq(&self) -> Seq<K::V> {
        self.items@.map_values(|k: K| k@)
    }

    /// No key is stored twice; the set is finite.
    pub closed spec fn wf(&self) -> bool {
        &&& forall|i: int, j: int|
            0 <= i < self.items.len() && 0 <= j < self.items.len() && i != j ==> #[trigger] self.items@[i]@
                != #[trigger] self.items@[j]@
        &&& self@.finite()
    }

    /// The set holds the keys of the sequence, each once.
    pub proof fn lemma_seq(&self)
        requires
            self.wf(),
        ensures
            self.seq().no_duplicates(),
            forall|x: K::V| #[trigger] self@.contains(x) == self.seq().contains(x),
    {
        assert forall|x: K::V| #[trigger] self@.contains(x) == self.seq().contains(x) by {
            if self@.contains(x) {
                let i = choose|i: int| 0 <= i < self.items.len() && #[trigger] self.items@[i]@ == x;
                assert(self.seq()[i] == x);
            }
            if self.seq().contains(x) {
                let i = choose|i: int| 0 <= i < self.seq().len() && self.seq()[i] == x;
                assert(self.items@[i]@ == x);
            }
        }
        assert forall|i: int, j: int|
            0 <= i < self.seq().len() && 0 <= j < self.seq().len() && i != j implies self.seq()[i]
            != self.seq()[j] by {
            assert(self.seq()[i] == self.items@[i]@);
            assert(self.seq()[j] == self.items@[j]@);
        }
    }

    pub fn new() -> (s: Self)
        ensures
            s.wf(),
            s@ == Set::<K::V>::empty(),
            s.seq() == Seq::<K::V>::empty(),
    {
        let s = KeySet { items: Vec::new() };
        assert(s@ =~= Set::<K::V>::empty());
        assert(s.seq() =~= Seq::<K::V>::empty());
        s
    }

    /// A copy of the keys, in order.
    pub fn to_vec(&self) -> (r: Vec<K>)
        ensures
            r.len() == self.seq().len(),
            forall|j: int| 0 <= j < r.len() ==> (#[trigger] r@[j])@ == self.seq()[j],
    {
        let mut r: Vec<K> = Vec::new();
        let mut i: usize = 0;
        while i < self.items.len()
            invariant
                i <= self.items.len(),
                r.len() == i,
                forall|j: int| 0 <= j < i ==> (#[trigger] r@[j])@ == self.seq()[j],
            decreases self.items.len() - i,
        {
            let c = self.items[i].copy_key();
            r.push(c);
            i += 1;
        }
        r
    }

    fn find(&self, k: &K) -> (r: Option<usize>)
        ensures
            match r {
                Some(i) => i < self.items.len() && self.items@[i as int]@ == k@,
                None => forall|i: int| 0 <= i < self.items.len() ==> self.items@[i]@ != k@,
            },
    {
        let mut i: usize = 0;
        while i < self.items.len()
            invariant
                i <= self.items.len(),
                forall|j: int| 0 <= j < i ==> self.items@[j]@ != k@,
            decreases self.items.len() - i,
        {
            if self.items[i].same_key(k) {
                return Some(i);
            }
            i += 1;
        }
        None
    }

    pub fn contains(&self, k: &K) -> (r: bool)
        ensures
            r == self@.contains(k@),
    {
        match self.find(k) {
            Some(i) => {
                assert(self@.contains(k@));
                true
            },
            None => false,
        }
    }

    /// Adds `k`; says whether it was absent before.
    pub fn insert(&mut self, k: K) -> (added: bool)
        requires
            old(self).wf(),
        ensures
            final(self).wf(),
            added == !old(self)@.contains(k@),
            final(self)@ == old(self)@.insert(k@),
            final(self).seq() == (if old(self)@.contains(k@) {
                old(self).seq()
            } else {
                old(self).seq().push(k@)
            }),
    {
        match self.find(&k) {
            Some(i) => {
                assert(old(self)@.contains(k@));
                assert(self@ =~= old(self)@.insert(k@));
                false
            },
            None => {
                let ghost kv = k@;
                let ghost n = self.items.len() as int;
                self.items.push(k);
                assert(self.items@[n]@ == kv);
                assert forall|x: K::V| #[trigger] self@.contains(x) == old(self)@.insert(kv).contains(x) by {
                    if old(self)@.contains(x) {
                        let j = choose|j: int| 0 <= j < n && #[trigger] old(self).items@[j]@ == x;
                        assert(self.items@[j] == old(self).items@[j]);
                    }
                    if self@.contains(x) {
                        let j = choose|j: int| 0 <= j < n + 1 && #[trigger] self.items@[j]@ == x;
                        if j < n {
                            assert(self.items@[j] == old(self).items@[j]);
                        }
                    }
                }
                assert(self@ =~= old(self)@.insert(kv));
                assert(self.seq() =~= old(self).seq().push(kv));
                true
            },
        }
    }

    /// Removes `k`; says whether it was present before.
    pub fn remove(&mut self, k: &K) -> (removed: bool)
        requires
            old(self).wf(),
        ensures
            final(self).wf(),
            removed == old(self)@.contains(k@),
            final(self)@ == old(self)@.remove(k@),
            final(self).seq() == (if old(self)@.contains(k@) {
                old(self).seq().update(old(self).seq().index_of(k@), old(self).seq().last()).drop_last()
            } else {
                old(self).seq()
            }),
    {
        match self.find(k) {
            None => {
                assert(!old(self)@.contains(k@));
                assert(self@ =~= old(self)@.remove(k@));
                false
            },
            Some(i) => {
                let ghost olds = old(self).items@;
                let ghost n = olds.len() as int;
                let _ = self.items.swap_remove(i);
                assert(self.items@ == olds.update(i as int, olds[n - 1]).drop_last());
                assert forall|x: K::V| #[trigger] self@.contains(x) == old(self)@.remove(k@).contains(x) by {
                    if self@.contains(x) {
                        let j = choose|j: int| 0 <= j < n - 1 && #[trigger] self.items@[j]@ == x;
                        if j == i {
                            assert(olds[n - 1]@ == x);
                            assert(old(self)@.contains(x));
                        } else {
                            assert(olds[j]@ == x);
                            assert(old(self)@.contains(x));
                        }
                    }
                    if old(self)@.remove(k@).contains(x) {
                        let j = choose|j: int| 0 <= j < n && #[trigger] olds[j]@ == x;
                        assert(j != i);
                        if j == n - 1 {
                            assert(self.items@[i as int]@ == x);
                        } else {
                            assert(self.items@[j]@ == x);
                        }
                    }
                }
                assert(self@ =~= old(self)@.remove(k@));
                assert(old(self)@.contains(k@));
                let ghost sq = old(self).seq();
                assert(sq[i as int] == k@);
                assert(sq.contains(k@));
                let ghost j = sq.index_of(k@);
                assert(sq[j] == k@);
                assert(olds[j]@ == olds[i as int]@);
                assert(j == i);
                assert(self.seq() =~= sq.update(i as int, sq.last()).drop_last());
                true
            },
        }
    }
}

/// A map from keys to values, each key stored once.
pub struct KeyMap<K: StorageKey, V> {
    entries: Vec<(K, V)>,
}

impl<K: StorageKey, V> KeyMap<K, V> {
    spec fn has(&self, x: K::V) -> bool {
        exists|i: int| 0 <= i < self.entries.len() && #[trigger] self.entries@[i].0@ == x
    }

    spec fn index_of(&self, x: K::V) -> int {
        choose|i: int| 0 <= i < self.entries.len() && #[trigger] self.entries@[i].0@ == x
    }

    /// No key is stored twice.
    pub closed spec fn wf(&self) -> bool {
        forall|i: int, j: int|
            0 <= i < self.entries.len() && 0 <= j < self.entries.len() && i != j
                ==> #[trigger] self.entries@[i].0@ != #[trigger] self.entries@[j].0@
    }

    proof fn lemma_lookup(&self, i: int)
        requires
            self.wf(),
            0 <= i < self.entries.len(),
        ensures
            self@.contains_key(self.entries@[i].0@),
            self@[self.entries@[i].0@] == self.entries@[i].1,
    {
        let x = self.entries@[i].0@;
        assert(self.has(x));
        let j = self.index_of(x);
        assert(self.entries@[j].0@ == x);
    }
}

impl<K: StorageKey, V> View for KeyMap<K, V> {
    type V = Map<K::V, V>;

    closed spec fn view(&self) -> Map<K::V, V> {
        Map::new(|x: K::V| self.has(x), |x: K::V| self.entries@[self.index_of(x)].1)
    }
}

impl<K: StorageKey, V> KeyMap<K, V> {
    pub fn new() -> (m: Self)
        ensures
            m.wf(),
            m@ == Map::<K::V, V>::empty(),
    {
        let m = KeyMap { entries: Vec::new() };
        assert(m@ =~= Map::<K::V, V>::empty());
        m
    }

    fn find(&self, k: &K) -> (r: Option<usize>)
        ensures
            match r {
                Some(i) => i < self.entries.len() && self.entries@[i as int].0@ == k@,
                None => forall|i: int| 0 <= i < self.entries.len() ==> self.entries@[i].0@ != k@,
            },
    {
        let mut i: usize = 0;
        while i < self.entries.len()
            invariant
                i <= self.entries.len(),
                forall|j: int| 0 <= j < i ==> self.entries@[j].0@ != k@,
            decreases self.entries.len() - i,
        {
            if self.entries[i].0.same_key(k) {
                return Some(i);
            }
            i += 1;
        }
        None
    }

    pub fn contains_key(&self, k: &K) -> (r: bool)
        requires
            self.wf(),
        ensures
            r == self@.contains_key(k@),
    {
        match self.find(k) {
            Some(i) => {
                proof {
                    self.lemma_lookup(i as int);
                }
                true
            },
            None => false,
        }
    }

    pub fn get(&self, k: &K) -> (r: Option<&V>)
        requires
            self.wf(),
        ensures
            match r {
                Some(v) => self@.contains_key(k@) && *v == self@[k@],
                None => !self@.contains_key(k@),
            },
    {
        match self.find(k) {
            Some(i) => {
                proof {
                    self.lemma_lookup(i as int);
                }
                Some(&self.entries[i].1)
            },
            None => None,
        }
    }

    /// Stores `v` under `k`, replacing what was there.
    pub fn set(&mut self, k: K, v: V)
        requires
            old(self).wf(),
        ensures
            final(self).wf(),
            final(self)@ == old(self)@.insert(k@, v),
    {
        let ghost kv = k@;
        let ghost olds = old(self).entries@;
        match self.find(&k) {
            Some(i) => {
                self.entries[i] = (k, v);
                assert(self.entries@ == olds.update(i as int, (k, v)));
                assert forall|x: K::V| #[trigger] self@.contains_key(x) == old(self)@.insert(kv, v).contains_key(x) by {
                    if self.has(x) {
                        let j = choose|j: int| 0 <= j < olds.len() && #[trigger] self.entries@[j].0@ == x;
                        if j != i {
                            assert(olds[j].0@ == x);
                            assert(old(self).has(x));
                        }
                    }
                    if old(self).has(x) {
                        let j = choose|j: int| 0 <= j < olds.len() && #[trigger] olds[j].0@ == x;
                        assert(self.entries@[j].0@ == x);
                    }
                }
                assert forall|x: K::V| #[trigger] self@.contains_key(x) implies self@[x] == old(self)@.insert(kv, v)[x] by {
                    let j = choose|j: int| 0 <= j < olds.len() && #[trigger] self.entries@[j].0@ == x;
                    self.lemma_lookup(j);
                    if j != i {
                        assert(olds[j].0@ == x);
                        old(self).lemma_lookup(j);
                    }
                }
                assert(self@ =~= old(self)@.insert(kv, v));
            },
            None => {
                let ghost n = olds.len() as int;
                self.entries.push((k, v));
                assert forall|x: K::V| #[trigger] self@.contains_key(x) == old(self)@.insert(kv, v).contains_key(x) by {
                    if self.has(x) {
                        let j = choose|j: int| 0 <= j < n + 1 && #[trigger] self.entries@[j].0@ == x;
                        if j < n {
                            assert(olds[j].0@ == x);
                            assert(old(self).has(x));
                        }
                    }
                    if old(self).has(x) {
                        let j = choose|j: int| 0 <= j < n && #[trigger] olds[j].0@ == x;
                        assert(self.entries@[j].0@ == x);
                    }
                    if x == kv {
                        assert(self.entries@[n].0@ == x);
                    }
                }
                assert forall|x: K::V| #[trigger] self@.contains_key(x) implies self@[x] == old(self)@.insert(kv, v)[x] by {
                    let j = choose|j: int| 0 <= j < n + 1 && #[trigger] self.entries@[j].0@ == x;
                    self.lemma_lookup(j);
                    if j < n {
                        assert(olds[j].0@ == x);
                        old(self).lemma_lookup(j);
                    }
                }
                assert(self@ =~= old(self)@.insert(kv, v));
            },
        }
    }

    /// Removes the entry of `k`, handing back its value.
    pub fn remove(&mut self, k: &K) -> (r: Option<V>)
        requires
            old(self).wf(),
        ensures
            final(self).wf(),
            final(self)@ == old(self)@.remove(k@),
            r == (if old(self)@.contains_key(k@) { Some(old(self)@[k@]) } else { None::<V> }),
    {
        let ghost olds = old(self).entries@;
        let ghost n = olds.len() as int;
        match self.find(k) {
            None => {
                assert(self@ =~= old(self)@.remove(k@));
                None
            },
            Some(i) => {
                proof {
                    old(self).lemma_lookup(i as int);
                }
                let e = self.entries.swap_remove(i);
                assert(self.entries@ == olds.update(i as int, olds[n - 1]).drop_last());
                assert forall|x: K::V| #[trigger] self@.contains_key(x) == old(self)@.remove(k@).contains_key(x) by {
                    if self.has(x) {
                        let j = choose|j: int| 0 <= j < n - 1 && #[trigger] self.entries@[j].0@ == x;
                        if j == i {
                            assert(olds[n - 1].0@ == x);
                            assert(old(self).has(x));
                        } else {
                            assert(olds[j].0@ == x);
                            assert(old(self).has(x));
                        }
                    }
                    if old(self)@.remove(k@).contains_key(x) {
                        let j = choose|j: int| 0 <= j < n && #[trigger] olds[j].0@ == x;
                        assert(j != i);
                        if j == n - 1 {
                            assert(self.entries@[i as int].0@ == x);
                        } else {
                            assert(self.entries@[j].0@ == x);
                        }
                    }
                }
                assert forall|x: K::V| #[trigger] self@.contains_key(x) implies self@[x] == old(self)@.remove(k@)[x] by {
                    let j = choose|j: int| 0 <= j < n - 1 && #[trigger] self.entries@[j].0@ == x;
                    self.lemma_lookup(j);
                    if j == i {
                        old(self).lemma_lookup(n - 1);
                    } else {
                        old(self).lemma_lookup(j);
                    }
                }
                assert(self@ =~= old(self)@.remove(k@));
                Some(e.1)
            },
        }
    }
}

} // verus!
