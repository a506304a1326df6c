//! A small association map kept in a vector.
//!
//! Keys are compared with an executable equality that agrees with the
//! equality used in specifications, so the map can be viewed as a
//! mathematical `Map`.  No key is stored twice; entries stay in the order in
//! which their keys were first inserted.

use vstd::prelude::*;

verus! {

/// Executable equality that coincides with equality in specifications.
pub trait ExecEq: Sized {
    fn exec_eq(&self, other: &Self) -> (r: bool)
        ensures
            r == (*self == *other),
    ;
}

impl ExecEq for usize {
    fn exec_eq(&self, other: &Self) -> (r: bool) {
        *self == *other
    }
}

/// `k` occurs as a key of `s`.
pub open spec fn has_key<K, V>(s: Seq<(K, V)>, k: K) -> bool {
    exists|i: int| 0 <= i < s.len() && (#[trigger] s[i]).0 == k
}

/// Some position at which `k` occurs in `s` (the only one when keys are distinct).
pub open spec fn index_of<K, V>(s: Seq<(K, V)>, k: K) -> int {
    choose|i: int| 0 <= i < s.len() && (#[trigger] s[i]).0 == k
}

/// No key occurs at two positions of `s`.
pub open spec fn keys_distinct<K, V>(s: Seq<(K, V)>) -> bool {
    forall|i: int, j: int|
        0 <= i < s.len() && 0 <= j < s.len() && i != j ==> (#[trigger] s[i]).0 != (#[trigger] s[j]).0
}

/// The map that a sequence of entries stands for.
pub open spec fn entries_to_map<K, V>(s: Seq<(K, V)>) -> Map<K, V> {
    Map::new(|k: K| has_key(s, k), |k: K| s[index_of(s, k)].1)
}

/// With distinct keys, each entry is what the map holds for its key.
pub proof fn lemma_entry_in_map<K, V>(s: Seq<(K, V)>, i: int)
    requires
        keys_distinct(s),
        0 <= i < s.len(),
    ensures
        entries_to_map(s).contains_key(s[i].0),
        entries_to_map(s)[s[i].0] == s[i].1,
{
    let k = s[i].0;
    assert(has_key(s, k));
    let j = index_of(s, k);
    assert(0 <= j < s.len() && s[j].0 == k);
    assert(j == i);
}

/// Appending an entry with a fresh key inserts it into the map.
pub proof fn lemma_push_fresh<K, V>(s: Seq<(K, V)>, k: K, v: V)
    requires
        keys_distinct(s),
        !has_key(s, k),
    ensures
        keys_distinct(s.push((k, v))),
        entries_to_map(s.push((k, v))) == entries_to_map(s).insert(k, v),
{
    let t = s.push((k, v));
    assert forall|i: int, j: int| 0 <= i < t.len() && 0 <= j < t.len() && i != j implies (#[trigger] t[i]).0
        != (#[trigger] t[j]).0 by {
        if i < s.len() && j < s.len() {
            assert(s[i].0 != s[j].0);
        } else if i < s.len() {
            assert(s[i].0 != k);
        } else {
            assert(s[j].0 != k);
        }
    }
    assert forall|q: K| has_key(t, q) <==> (q == k || has_key(s, q)) by {
        if has_key(t, q) {
            let i = index_of(t, q);
            if i < s.len() {
                assert(s[i].0 == q);
            }
        }
        if q == k {
            assert(t[s.len() as int].0 == k);
        }
        if has_key(s, q) {
            let i = index_of(s, q);
            assert(t[i].0 == q);
        }
    }
    assert forall|q: K| has_key(t, q) implies #[trigger] entries_to_map(t)[q] == entries_to_map(s).insert(
        k,
        v,
    )[q] by {
        let i = index_of(t, q);
        lemma_entry_in_map(t, i);
        if i < s.len() {
            assert(s[i].0 == q);
            lemma_entry_in_map(s, i);
        }
    }
    assert(entries_to_map(t) =~= entries_to_map(s).insert(k, v));
}

/// Replacing the value of the entry at `i` updates the map at that entry's key.
pub proof fn lemma_update_at<K, V>(s: Seq<(K, V)>, i: int, v: V)
    requires
        keys_distinct(s),
        0 <= i < s.len(),
    ensures
        keys_distinct(s.update(i, (s[i].0, v))),
        entries_to_map(s.update(i, (s[i].0, v))) == entries_to_map(s).insert(s[i].0, v),
{
    let k = s[i].0;
    let t = s.update(i, (k, v));
    assert forall|a: int, b: int| 0 <= a < t.len() && 0 <= b < t.len() && a != b implies (#[trigger] t[a]).0
        != (#[trigger] t[b]).0 by {
        assert(t[a].0 == s[a].0);
        assert(t[b].0 == s[b].0);
    }
    assert forall|q: K| has_key(t, q) <==> has_key(s, q) by {
        if has_key(t, q) {
            let a = index_of(t, q);
            assert(s[a].0 == q);
        }
        if has_key(s, q) {
            let a = index_of(s, q);
            assert(t[a].0 == q);
        }
    }
    lemma_entry_in_map(s, i);
    assert forall|q: K| has_key(t, q) implies #[trigger] entries_to_map(t)[q] == entries_to_map(s).insert(
        k,
        v,
    )[q] by {
        let a = index_of(t, q);
        lemma_entry_in_map(t, a);
        assert(s[a].0 == q);
        lemma_entry_in_map(s, a);
    }
    assert(entries_to_map(t) =~= entries_to_map(s).insert(k, v));
}

/// With distinct keys, the keys in order have no duplicates and are exactly
/// the domain of the map, which is therefore finite.
pub proof fn lemma_key_seq<K, V>(s: Seq<(K, V)>)
    requires
        keys_distinct(s),
    ensures
        s.map_values(|e: (K, V)| e.0).no_duplicates(),
        forall|k: K| s.map_values(|e: (K, V)| e.0).contains(k) <==> entries_to_map(s).contains_key(k),
        entries_to_map(s).dom().finite(),
        entries_to_map(s).dom() == s.map_values(|e: (K, V)| e.0).to_set(),
{
    let ks = s.map_values(|e: (K, V)| e.0);
    assert forall|i: int, j: int| 0 <= i < ks.len() && 0 <= j < ks.len() && i != j implies ks[i]
        != ks[j] by {
        assert(s[i].0 != s[j].0);
    }
    assert forall|k: K| ks.contains(k) <==> entries_to_map(s).contains_key(k) by {
        if ks.contains(k) {
            let i = choose|i: int| 0 <= i < ks.len() && ks[i] == k;
            assert(s[i].0 == k);
        }
        if entries_to_map(s).contains_key(k) {
            let i = index_of(s, k);
            assert(ks[i] == k);
        }
    }
    assert(entries_to_map(s).dom() =~= ks.to_set());
    vstd::seq_lib::seq_to_set_is_finite(ks);
}

/// The map of the first `n + 1` entries is the map of the first `n` with the
/// next entry inserted.
pub proof fn lemma_take_next<K, V>(s: Seq<(K, V)>, n: int)
    requires
        keys_distinct(s),
        0 <= n < s.len(),
    ensures
        keys_distinct(s.take(n)),
        keys_distinct(s.take(n + 1)),
        !has_key(s.take(n), s[n].0),
        entries_to_map(s.take(n + 1)) == entries_to_map(s.take(n)).insert(s[n].0, s[n].1),
{
    let p = s.take(n);
    assert forall|i: int, j: int| 0 <= i < p.len() && 0 <= j < p.len() && i != j implies (#[trigger] p[i]).0
        != (#[trigger] p[j]).0 by {
        assert(s[i].0 != s[j].0);
    }
    if has_key(p, s[n].0) {
        let i = index_of(p, s[n].0);
        assert(s[i].0 == s[n].0);
    }
    assert(s.take(n + 1) =~= p.push(s[n]));
    lemma_push_fresh(p, s[n].0, s[n].1);
}

/// An association map whose keys are compared with [`ExecEq`].
#[derive(Debug)]
pub struct VecMap<K, V> {
    entries: Vec<(K, V)>,
}

impl<K, V> View for VecMap<K, V> {
    type V = Map<K, V>;

    closed spec fn view(&self) -> Map<K, V> {
        entries_to_map(self.entries@)
    }
}

impl<K, V> VecMap<K, V> {
    #[verifier::type_invariant]
    spec fn well_formed(&self) -> bool {
        keys_distinct(self.entries@)
    }

    /// The keys in the order in which they were first inserted.
    pub closed spec fn key_seq(&self) -> Seq<K> {
        self.entries@.map_values(|e: (K, V)| e.0)
    }
}

impl<K: ExecEq + Copy, V> VecMap<K, V> {

    /// An empty map.
    pub fn new() -> (r: Self)
        ensures
            r@ == Map::<K, V>::empty(),
    {
        let r = VecMap { entries: Vec::new() };
        assert(r@ =~= Map::<K, V>::empty());
        r
    }

    /// Whether the map holds no entry.
    pub fn is_empty(&self) -> (r: bool)
        ensures
            r == (self@ == Map::<K, V>::empty()),
    {
        let r = self.entries.len() == 0;
        proof {
            if r {
                assert(self@ =~= Map::<K, V>::empty());
            } else {
                assert(has_key(self.entries@, self.entries@[0].0));
                assert(self@.contains_key(self.entries@[0].0));
            }
        }
        r
    }

    /// The position of `key` among the entries, if it is present.
    fn position(&self, key: &K) -> (r: Option<usize>)
        ensures
            match r {
                Some(i) => i < self.entries@.len() && self.entries@[i as int].0 == *key,
                None => !has_key(self.entries@, *key),
            },
    {
        let mut i: usize = 0;
        while i < self.entries.len()
            invariant
                i <= self.entries@.len(),
                forall|j: int| 0 <= j < i ==> (#[trigger] self.entries@[j]).0 != *key,
            decreases self.entries@.len() - i,
        {
            if self.entries[i].0.exec_eq(key) {
                return Some(i);
            }
            i += 1;
        }
        None
    }

    /// Whether `key` has an entry.
    pub fn contains_key(&self, key: &K) -> (r: bool)
        ensures
            r == self@.contains_key(*key),
    {
        self.position(key).is_some()
    }

    /// The value stored for `key`, if any.
    pub fn get(&self, key: &K) -> (r: Option<&V>)
        ensures
            match r {
                Some(v) => self@.contains_key(*key) && *v == self@[*key],
                None => !self@.contains_key(*key),
            },
    {
        match self.position(key) {
            Some(i) => {
                proof {
                    use_type_invariant(self);
                    lemma_entry_in_map(self.entries@, i as int);
                }
                Some(&self.entries[i].1)
            },
            None => None,
        }
    }

    /// Stores `value` for `key`, replacing what was stored before.
    pub fn insert(&mut self, key: K, value: V)
        ensures
            final(self)@ == old(self)@.insert(key, value),
    {
        proof {
            use_type_invariant(&*self);
        }
        let found = self.position(&key);
        let mut entries: Vec<(K, V)> = Vec::new();
        core::mem::swap(&mut entries, &mut self.entries);
        match found {
            Some(i) => {
                proof {
                    lemma_update_at(entries@, i as int, value);
                }
                entries.set(i, (key, value));
            },
            None => {
                proof {
                    lemma_push_fresh(entries@, key, value);
                }
                entries.push((key, value));
            },
        }
        self.entries = entries;
    }

    /// Stores `value` for `key` unless the key already has an entry.
    pub fn insert_if_absent(&mut self, key: K, value: V)
        ensures
            final(self)@ == (if old(self)@.contains_key(key) {
                old(self)@
            } else {
                old(self)@.insert(key, value)
            }),
    {
        if !self.contains_key(&key) {
            self.insert(key, value);
        }
    }

    /// The number of entries.  The keys are pairwise different and make up
    /// the domain of the map.
    pub fn len(&self) -> (r: usize)
        ensures
            r == self.key_seq().len(),
            self.key_seq().no_duplicates(),
            self@.dom().finite(),
            self@.dom() == self.key_seq().to_set(),
            forall|k: K| self.key_seq().contains(k) <==> self@.contains_key(k),
    {
        proof {
            use_type_invariant(self);
            lemma_key_seq(self.entries@);
        }
        self.entries.len()
    }

    /// The key of the entry at position `i`.
    pub fn key_at(&self, i: usize) -> (r: K)
        requires
            i < self.key_seq().len(),
        ensures
            r == self.key_seq()[i as int],
    {
        self.entries[i].0
    }

    /// The value of the entry at position `i`.
    pub fn value_at(&self, i: usize) -> (r: &V)
        requires
            i < self.key_seq().len(),
        ensures
            self@.contains_key(self.key_seq()[i as int]),
            *r == self@[self.key_seq()[i as int]],
    {
        proof {
            use_type_invariant(self);
            lemma_entry_in_map(self.entries@, i as int);
        }
        &self.entries[i].1
    }

    /// The keys, in the order in which they were first inserted.
    pub fn keys(&self) -> (r: Vec<K>)
        ensures
            r@ == self.key_seq(),
            r@.no_duplicates(),
            r@.to_set() == self@.dom(),
    {
        let n = self.len();
        let mut r: Vec<K> = Vec::new();
        let mut i: usize = 0;
        while i < n
            invariant
                n == self.key_seq().len(),
                i <= n,
                r@ == self.key_seq().take(i as int),
            decreases n - i,
        {
            r.push(self.key_at(i));
            assert(self.key_seq().take(i + 1) =~= self.key_seq().take(i as int).push(
                self.key_seq()[i as int],
            ));
            i += 1;
        }
        assert(self.key_seq().take(n as int) =~= self.key_seq());
        r
    }

}

impl<K: ExecEq + Copy, V: Copy> VecMap<K, V> {
    /// A copy with the same entries.
    pub fn duplicate(&self) -> (r: Self)
        ensures
            r@ == self@,
    {
        let mut r = VecMap::new();
        r.extend_from(self);
        assert(r@ =~= self@);
        r
    }

    /// Lays the entries of `other` over this map: where both hold a key, the
    /// value of `other` stays.
    pub fn extend_from(&mut self, other: &Self)
        ensures
            final(self)@ == old(self)@.union_prefer_right(other@),
    {
        proof {
            use_type_invariant(other);
        }
        let n = other.entries.len();
        let mut i: usize = 0;
        assert(entries_to_map(other.entries@.take(0)) =~= Map::<K, V>::empty());
        assert(self@ =~= old(self)@.union_prefer_right(Map::<K, V>::empty()));
        while i < n
            invariant
                n == other.entries@.len(),
                i <= n,
                keys_distinct(other.entries@),
                self@ == old(self)@.union_prefer_right(entries_to_map(other.entries@.take(i as int))),
            decreases n - i,
        {
            let ghost before = entries_to_map(other.entries@.take(i as int));
            let k = other.entries[i].0;
            let v = other.entries[i].1;
            proof {
                lemma_take_next(other.entries@, i as int);
                assert(old(self)@.union_prefer_right(before).insert(k, v) =~= old(self)@.union_prefer_right(before.insert(k, v)));
            }
            self.insert(k, v);
            i += 1;
        }
        assert(other.entries@.take(n as int) =~= other.entries@);
    }
}

impl<K: ExecEq + Copy, V: ExecEq + Copy> VecMap<K, V> {
    /// Whether every entry of this map is an entry of `other`.
    fn included_in(&self, other: &Self) -> (r: bool)
        ensures
            r == (forall|k: K| #[trigger]
                self@.contains_key(k) ==> other@.contains_key(k) && other@[k] == self@[k]),
    {
        proof {
            use_type_invariant(self);
        }
        let n = self.entries.len();
        let mut i: usize = 0;
        while i < n
            invariant
                n == self.entries@.len(),
                i <= n,
                keys_distinct(self.entries@),
                forall|j: int|
                    0 <= j < i ==> other@.contains_key((#[trigger] self.entries@[j]).0) && other@[self.entries@[j].0]
                        == self.entries@[j].1,
            decreases n - i,
        {
            proof {
                lemma_entry_in_map(self.entries@, i as int);
            }
            let found = match other.get(&self.entries[i].0) {
                Some(v) => v.exec_eq(&self.entries[i].1),
                None => false,
            };
            if !found {
                assert(self@.contains_key(self.entries@[i as int].0));
                return false;
            }
            i += 1;
        }
        assert forall|k: K| #[trigger] self@.contains_key(k) implies other@.contains_key(k) && other@[k]
            == self@[k] by {
            let j = index_of(self.entries@, k);
            lemma_entry_in_map(self.entries@, j);
        }
        true
    }

    /// Whether the two maps hold the same entries, in whatever order.
    pub fn same_entries(&self, other: &Self) -> (r: bool)
        ensures
            r == (self@ == other@),
    {
        let r = self.included_in(other) && other.included_in(self);
        proof {
            if r {
                assert(self@ =~= other@);
            }
        }
        r
    }
}

impl<K: ExecEq + Copy, V: Clone> Clone for VecMap<K, V> {
    /// A map with the same keys, each with a clone of its value.
    fn clone(&self) -> (r: Self)
        ensures
            r@.dom() == self@.dom(),
            forall|k: K| #[trigger] self@.contains_key(k) ==> cloned::<V>(self@[k], r@[k]),
    {
        proof {
            use_type_invariant(self);
        }
        let n = self.entries.len();
        let mut entries: Vec<(K, V)> = Vec::new();
        let mut i: usize = 0;
        while i < n
            invariant
                n == self.entries@.len(),
                i <= n,
                entries@.len() == i,
                forall|j: int|
                    0 <= j < i ==> (#[trigger] entries@[j]).0 == self.entries@[j].0 && cloned::<V>(
                        self.entries@[j].1,
                        entries@[j].1,
                    ),
            decreases n - i,
        {
            let value = self.entries[i].1.clone();
            entries.push((self.entries[i].0, value));
            i += 1;
        }
        proof {
            let s = self.entries@;
            let t = entries@;
            assert forall|a: int, b: int| 0 <= a < t.len() && 0 <= b < t.len() && a != b implies (
            #[trigger] t[a]).0 != (#[trigger] t[b]).0 by {
                assert(s[a].0 != s[b].0);
            }
            assert forall|k: K| has_key(t, k) <==> has_key(s, k) by {
                if has_key(t, k) {
                    let a = index_of(t, k);
                    assert(s[a].0 == k);
                }
                if has_key(s, k) {
                    let a = index_of(s, k);
                    assert(t[a].0 == k);
                }
            }
            assert(entries_to_map(t).dom() =~= entries_to_map(s).dom());
            assert forall|k: K| #[trigger] entries_to_map(s).contains_key(k) implies cloned::<V>(
                entries_to_map(s)[k],
                entries_to_map(t)[k],
            ) by {
                let a = index_of(s, k);
                lemma_entry_in_map(s, a);
                assert(t[a].0 == k);
                lemma_entry_in_map(t, a);
            }
        }
        VecMap { entries }
    }
}

} // verus!
