//! Small keyed collections used by the authorization, connection and peer managers.
//!
//! `StringMap` is an association list keyed by `String` whose keys are kept distinct, so that it
//! behaves as a finite map from the characters of a key to its value.  `RefMap` counts references
//! to ids on top of it.
use vstd::prelude::*;

verus! {

/// A map from `String` keys to values, kept as a list of distinct keys in insertion order.
pub struct StringMap<V> {
    entries: Vec<(String, V)>,
}

/// The index of the entry whose key is `k`, if there is one.
pub open spec fn key_index<V>(entries: Seq<(String, V)>, k: Seq<char>) -> int {
    choose|i: int| 0 <= i < entries.len() && #[trigger] entries[i].0@ == k
}

/// Whether some entry of `entries` has the key `k`.
pub open spec fn has_key<V>(entries: Seq<(String, V)>, k: Seq<char>) -> bool {
    exists|i: int| 0 <= i < entries.len() && #[trigger] entries[i].0@ == k
}

/// The keys of `entries` are pairwise distinct.
pub open spec fn distinct_keys<V>(entries: Seq<(String, V)>) -> bool {
    forall|i: int, j: int|
        0 <= i < entries.len() && 0 <= j < entries.len() && i != j ==> #[trigger] entries[i].0@
            != #[trigger] entries[j].0@
}

/// No two of `strings` are the same string.
pub open spec fn distinct_strings(strings: Seq<String>) -> bool {
    forall|i: int, j: int|
        0 <= i < strings.len() && 0 <= j < strings.len() && i != j ==> #[trigger] strings[i]@ != #[trigger] strings[j]@
}

/// The finite map that an association list with distinct keys stands for.
pub open spec fn entries_map<V>(entries: Seq<(String, V)>) -> Map<Seq<char>, V> {
    Map::new(|k: Seq<char>| has_key(entries, k), |k: Seq<char>| entries[key_index(entries, k)].1)
}

/// In a list with distinct keys, the entry at `i` is the one the map finds for its key.
pub proof fn lemma_entries_map_at<V>(entries: Seq<(String, V)>, i: int)
    requires
        distinct_keys(entries),
        0 <= i < entries.len(),
    ensures
        entries_map(entries).contains_key(entries[i].0@),
        entries_map(entries)[entries[i].0@] == entries[i].1,
        key_index(entries, entries[i].0@) == i,
{
    assert(has_key(entries, entries[i].0@));
    let j = key_index(entries, entries[i].0@);
    assert(entries[j].0@ == entries[i].0@);
}

/// Removing the entry at `i` removes its key from the map.
pub proof fn lemma_entries_map_remove<V>(entries: Seq<(String, V)>, i: int)
    requires
        distinct_keys(entries),
        0 <= i < entries.len(),
    ensures
        distinct_keys(entries.remove(i)),
        entries_map(entries.remove(i)) =~= entries_map(entries).remove(entries[i].0@),
{
    let r = entries.remove(i);
    assert forall|a: int, b: int|
        0 <= a < r.len() && 0 <= b < r.len() && a != b implies #[trigger] r[a].0@ != #[trigger] r[b].0@ by {
        let a2 = if a < i { a } else { a + 1 };
        let b2 = if b < i { b } else { b + 1 };
        assert(r[a] == entries[a2]);
        assert(r[b] == entries[b2]);
    }
    let m = entries_map(entries);
    let m2 = entries_map(r);
    let k0 = entries[i].0@;
    assert forall|k: Seq<char>| #[trigger] m2.contains_key(k) <==> m.remove(k0).contains_key(k) by {
        if m2.contains_key(k) {
            let a = choose|a: int| 0 <= a < r.len() && #[trigger] r[a].0@ == k;
            let a2 = if a < i { a } else { a + 1 };
            assert(r[a] == entries[a2]);
            assert(has_key(entries, k));
        }
        if m.remove(k0).contains_key(k) {
            let a = choose|a: int| 0 <= a < entries.len() && #[trigger] entries[a].0@ == k;
            assert(a != i);
            let a2 = if a < i { a } else { a - 1 };
            assert(r[a2] == entries[a]);
            assert(has_key(r, k));
        }
    }
    assert forall|k: Seq<char>| #[trigger] m2.contains_key(k) implies m2[k] == m.remove(k0)[k] by {
        let a = key_index(r, k);
        let a2 = if a < i { a } else { a + 1 };
        assert(r[a] == entries[a2]);
        lemma_entries_map_at(entries, a2);
    }
}

/// Pushing an entry with a new key adds that key to the map.
pub proof fn lemma_entries_map_push<V>(entries: Seq<(String, V)>, k: String, v: V)
    requires
        distinct_keys(entries),
        !has_key(entries, k@),
    ensures
        distinct_keys(entries.push((k, v))),
        entries_map(entries.push((k, v))) =~= entries_map(entries).insert(k@, v),
{
    let p = entries.push((k, v));
    assert forall|a: int, b: int|
        0 <= a < p.len() && 0 <= b < p.len() && a != b implies #[trigger] p[a].0@ != #[trigger] p[b].0@ by {
        if a < entries.len() && b < entries.len() {
            assert(p[a] == entries[a]);
            assert(p[b] == entries[b]);
        } else if a < entries.len() {
            assert(p[a] == entries[a]);
        } else if b < entries.len() {
            assert(p[b] == entries[b]);
        }
    }
    let m = entries_map(entries);
    let m2 = entries_map(p);
    assert forall|kk: Seq<char>| #[trigger] m2.contains_key(kk) <==> m.insert(k@, v).contains_key(kk) by {
        if m2.contains_key(kk) && kk != k@ {
            let a = choose|a: int| 0 <= a < p.len() && #[trigger] p[a].0@ == kk;
            assert(a < entries.len());
            assert(p[a] == entries[a]);
            assert(has_key(entries, kk));
        }
        if m.contains_key(kk) {
            let a = choose|a: int| 0 <= a < entries.len() && #[trigger] entries[a].0@ == kk;
            assert(p[a] == entries[a]);
            assert(has_key(p, kk));
        }
        if kk == k@ {
            assert(p[entries.len() as int].0@ == kk);
            assert(has_key(p, kk));
        }
    }
    assert forall|kk: Seq<char>| #[trigger] m2.contains_key(kk) implies m2[kk] == m.insert(k@, v)[kk] by {
        let a = key_index(p, kk);
        lemma_entries_map_at(p, a);
        if a < entries.len() {
            assert(p[a] == entries[a]);
            lemma_entries_map_at(entries, a);
        }
    }
}

/// Replacing the value at `i` (keeping its key) updates that key in the map.
pub proof fn lemma_entries_map_update<V>(entries: Seq<(String, V)>, i: int, k: String, v: V)
    requires
        distinct_keys(entries),
        0 <= i < entries.len(),
        entries[i].0@ == k@,
    ensures
        distinct_keys(entries.update(i, (k, v))),
        entries_map(entries.update(i, (k, v))) =~= entries_map(entries).insert(k@, v),
{
    let u = entries.update(i, (k, v));
    assert forall|a: int, b: int|
        0 <= a < u.len() && 0 <= b < u.len() && a != b implies #[trigger] u[a].0@ != #[trigger] u[b].0@ by {
        assert(u[a].0@ == entries[a].0@);
        assert(u[b].0@ == entries[b].0@);
    }
    let m = entries_map(entries);
    let m2 = entries_map(u);
    assert forall|kk: Seq<char>| #[trigger] m2.contains_key(kk) <==> m.insert(k@, v).contains_key(kk) by {
        if m2.contains_key(kk) {
            let a = choose|a: int| 0 <= a < u.len() && #[trigger] u[a].0@ == kk;
            assert(u[a].0@ == entries[a].0@);
            assert(has_key(entries, kk));
        }
        if m.contains_key(kk) {
            let a = choose|a: int| 0 <= a < entries.len() && #[trigger] entries[a].0@ == kk;
            assert(u[a].0@ == entries[a].0@);
            assert(has_key(u, kk));
        }
        if kk == k@ {
            assert(u[i].0@ == kk);
            assert(has_key(u, kk));
        }
    }
    assert forall|kk: Seq<char>| #[trigger] m2.contains_key(kk) implies m2[kk] == m.insert(k@, v)[kk] by {
        let a = key_index(u, kk);
        lemma_entries_map_at(u, a);
        if a != i {
            assert(u[a] == entries[a]);
            lemma_entries_map_at(entries, a);
        }
    }
}

impl<V> StringMap<V> {
    /// The map from key characters to values.
    pub closed spec fn view(&self) -> Map<Seq<char>, V> {
        entries_map(self.entries@)
    }

    /// The entries, in insertion order.
    pub closed spec fn entries(&self) -> Seq<(String, V)> {
        self.entries@
    }

    /// Keys are distinct.
    #[verifier::type_invariant]
    spec fn wf(&self) -> bool {
        distinct_keys(self.entries@)
    }

    /// The map holds exactly its entries.
    proof fn lemma_view(&self)
        requires
            distinct_keys(self.entries@),
        ensures
            self@ == entries_map(self.entries()),
            distinct_keys(self.entries()),
            self@.dom().finite(),
            self@.dom().len() == self.entries().len(),
    {
        self.lemma_dom_len(self.entries@.len() as int);
    }

    proof fn lemma_dom_len(&self, n: int)
        requires
            distinct_keys(self.entries@),
            0 <= n <= self.entries@.len(),
        ensures
            Set::new(|k: Seq<char>| exists|i: int| 0 <= i < n && #[trigger] self.entries@[i].0@ == k).finite(),
            Set::new(|k: Seq<char>| exists|i: int| 0 <= i < n && #[trigger] self.entries@[i].0@ == k).len()
                == n,
            n == self.entries@.len() ==> self@.dom() =~= Set::new(
                |k: Seq<char>| exists|i: int| 0 <= i < n && #[trigger] self.entries@[i].0@ == k,
            ),
        decreases n,
    {
        let e = self.entries@;
        let s = Set::new(|k: Seq<char>| exists|i: int| 0 <= i < n && #[trigger] e[i].0@ == k);
        if n == 0 {
            assert(s =~= Set::empty());
        } else {
            self.lemma_dom_len(n - 1);
            let s1 = Set::new(|k: Seq<char>| exists|i: int| 0 <= i < n - 1 && #[trigger] e[i].0@ == k);
            assert(!s1.contains(e[n - 1].0@)) by {
                if s1.contains(e[n - 1].0@) {
                    let i = choose|i: int| 0 <= i < n - 1 && #[trigger] e[i].0@ == e[n - 1].0@;
                    assert(false);
                }
            }
            assert(s =~= s1.insert(e[n - 1].0@));
        }
        if n == e.len() {
            assert forall|k: Seq<char>| #[trigger] self@.dom().contains(k) <==> s.contains(k) by {
                if s.contains(k) {
                    let i = choose|i: int| 0 <= i < n && #[trigger] e[i].0@ == k;
                    assert(has_key(e, k));
                }
            }
        }
    }

    /// An empty map.
    pub fn new() -> (m: Self)
        ensures
            m@ == Map::<Seq<char>, V>::empty(),
            m.entries() == Seq::<(String, V)>::empty(),
    {
        let m = StringMap { entries: Vec::new() };
        assert(m@ =~= Map::<Seq<char>, V>::empty());
        m
    }

    /// The number of keys.
    pub fn len(&self) -> (n: usize)
        ensures
            n == self@.len(),
            n == self.entries().len(),
            distinct_keys(self.entries()),
            self@ == entries_map(self.entries()),
    {
        proof {
            use_type_invariant(self);
            self.lemma_view();
        }
        self.entries.len()
    }

    /// The position of `key` in the entries, if present.
    pub fn find(&self, key: &String) -> (r: Option<usize>)
        ensures
            match r {
                Some(i) => i < self.entries().len() && self.entries()[i as int].0@ == key@
                    && self@.contains_key(key@) && self@[key@] == self.entries()[i as int].1,
                None => !self@.contains_key(key@),
            },
    {
        proof {
            use_type_invariant(self);
        }
        let n = self.entries.len();
        let mut i: usize = 0;
        while i < n
            invariant
                n == self.entries@.len(),
                distinct_keys(self.entries@),
                0 <= i <= n,
                forall|j: int| 0 <= j < i ==> #[trigger] self.entries@[j].0@ != key@,
            decreases n - i,
        {
            if self.entries[i].0 == *key {
                proof {
                    lemma_entries_map_at(self.entries@, i as int);
                }
                return Some(i);
            }
            i = i + 1;
        }
        None
    }

    /// Whether `key` is present.
    pub fn contains_key(&self, key: &String) -> (b: bool)
        ensures
            b == self@.contains_key(key@),
    {
        self.find(key).is_some()
    }

    /// The value of `key`, if present.
    pub fn get(&self, key: &String) -> (r: Option<&V>)
        ensures
            match r {
                Some(v) => self@.contains_key(key@) && *v == self@[key@],
                None => !self@.contains_key(key@),
            },
    {
        match self.find(key) {
            Some(i) => Some(&self.entries[i].1),
            None => None,
        }
    }

    /// The key at position `i`.
    pub fn key_at(&self, i: usize) -> (k: &String)
        requires
            i < self.entries().len(),
        ensures
            *k == self.entries()[i as int].0,
    {
        &self.entries[i].0
    }

    /// The value at position `i`.
    pub fn value_at(&self, i: usize) -> (v: &V)
        requires
            i < self.entries().len(),
        ensures
            *v == self.entries()[i as int].1,
    {
        &self.entries[i].1
    }

    /// Sets the value of `key`, returning the value it replaced.
    pub fn insert(&mut self, key: String, value: V) -> (old_value: Option<V>)
        ensures
            final(self)@ == old(self)@.insert(key@, value),
            old(self)@.contains_key(key@) ==> old_value == Some(old(self)@[key@]),
            !old(self)@.contains_key(key@) ==> old_value is None,
    {
        proof {
            use_type_invariant(&*self);
        }
        let found = self.find(&key);
        let mut entries: Vec<(String, V)> = Vec::new();
        std::mem::swap(&mut entries, &mut self.entries);
        let ghost pre = entries@;
        match found {
            Some(i) => {
                let (_k, old_v) = entries.remove(i);
                entries.insert(i, (key, value));
                proof {
                    assert(entries@ =~= pre.update(i as int, (key, value)));
                    lemma_entries_map_update(pre, i as int, key, value);
                }
                self.entries = entries;
                Some(old_v)
            },
            None => {
                proof {
                    assert(!has_key(pre, key@));
                    lemma_entries_map_push(pre, key, value);
                }
                entries.push((key, value));
                self.entries = entries;
                None
            },
        }
    }

    /// Removes `key`, returning its value.
    pub fn remove(&mut self, key: &String) -> (old_value: Option<V>)
        ensures
            final(self)@ == old(self)@.remove(key@),
            old(self)@.contains_key(key@) ==> old_value == Some(old(self)@[key@]),
            !old(self)@.contains_key(key@) ==> old_value is None,
    {
        proof {
            use_type_invariant(&*self);
        }
        match self.find(key) {
            Some(i) => {
                let mut entries: Vec<(String, V)> = Vec::new();
                std::mem::swap(&mut entries, &mut self.entries);
                let ghost pre = entries@;
                let (_k, v) = entries.remove(i);
                proof {
                    lemma_entries_map_remove(pre, i as int);
                }
                self.entries = entries;
                Some(v)
            },
            None => {
                assert(self@.remove(key@) =~= self@);
                None
            },
        }
    }

    /// The keys, in insertion order.
    pub fn keys(&self) -> (ks: Vec<String>)
        ensures
            ks@.len() == self.entries().len(),
            forall|i: int| 0 <= i < ks@.len() ==> #[trigger] ks@[i]@ == self.entries()[i].0@,
            forall|k: Seq<char>| self@.contains_key(k) <==> exists|i: int| 0 <= i < ks@.len() && #[trigger] ks@[i]@ == k,
            distinct_strings(ks@),
    {
        proof {
            use_type_invariant(self);
        }
        let mut ks: Vec<String> = Vec::new();
        let n = self.entries.len();
        for i in 0..n
            invariant
                n == self.entries@.len(),
                ks@.len() == i,
                forall|j: int| 0 <= j < i ==> #[trigger] ks@[j]@ == self.entries@[j].0@,
        {
            ks.push(self.entries[i].0.clone());
        }
        proof {
            assert forall|k: Seq<char>| self@.contains_key(k) <==> exists|i: int| 0 <= i < ks@.len() && #[trigger] ks@[i]@ == k by {
                if self@.contains_key(k) {
                    let i = choose|i: int| 0 <= i < self.entries@.len() && #[trigger] self.entries@[i].0@ == k;
                    assert(ks@[i]@ == k);
                }
                if exists|i: int| 0 <= i < ks@.len() && #[trigger] ks@[i]@ == k {
                    let i = choose|i: int| 0 <= i < ks@.len() && #[trigger] ks@[i]@ == k;
                    assert(self.entries@[i].0@ == k);
                    assert(has_key(self.entries@, k));
                }
            }
            assert forall|i: int, j: int|
                0 <= i < ks@.len() && 0 <= j < ks@.len() && i != j implies #[trigger] ks@[i]@ != #[trigger] ks@[j]@ by {
                assert(ks@[i]@ == self.entries@[i].0@);
                assert(ks@[j]@ == self.entries@[j].0@);
            }
        }
        ks
    }
}

} // verus!

verus! {

/// Reference counts by id: an id is present while it has at least one reference.
pub struct RefMap {
    references: StringMap<u64>,
}

impl RefMap {
    /// The reference count of each id that has references.
    pub closed spec fn counts(&self) -> Map<Seq<char>, u64> {
        self.references@
    }

    /// Every id present has at least one reference.
    #[verifier::type_invariant]
    spec fn wf(&self) -> bool {
        forall|k: Seq<char>| #[trigger] self.references@.contains_key(k) ==> self.references@[k] >= 1
    }

    /// No references.
    pub fn new() -> (m: Self)
        ensures
            m.counts() == Map::<Seq<char>, u64>::empty(),
    {
        RefMap { references: StringMap::new() }
    }

    /// The reference count of `ref_id`, if it has references.
    pub fn count(&self, ref_id: &String) -> (c: Option<u64>)
        ensures
            c == (if self.counts().contains_key(ref_id@) {
                Some(self.counts()[ref_id@])
            } else {
                None::<u64>
            }),
    {
        match self.references.get(ref_id) {
            Some(c) => Some(*c),
            None => None,
        }
    }

    /// Adds a reference to `ref_id`, returning its new count.
    pub fn add_ref(&mut self, ref_id: String) -> (count: u64)
        requires
            old(self).counts().contains_key(ref_id@) ==> old(self).counts()[ref_id@] < u64::MAX,
        ensures
            old(self).counts().contains_key(ref_id@) ==> old(self).counts()[ref_id@] >= 1,
            count == if old(self).counts().contains_key(ref_id@) {
                (old(self).counts()[ref_id@] + 1) as u64
            } else {
                1u64
            },
            final(self).counts() == old(self).counts().insert(ref_id@, count),
    {
        proof {
            use_type_invariant(&*self);
        }
        let count = match self.references.get(&ref_id) {
            Some(c) => *c + 1,
            None => 1,
        };
        let mut references = StringMap::new();
        std::mem::swap(&mut references, &mut self.references);
        let _ = references.insert(ref_id, count);
        self.references = references;
        count
    }

    /// Removes a reference to `ref_id`.  When it was the last one, the id is dropped and
    /// returned; an id with no references is left alone.
    pub fn remove_ref(&mut self, ref_id: &str) -> (removed: Option<String>)
        ensures
            old(self).counts().contains_key(ref_id@) ==> old(self).counts()[ref_id@] >= 1,
            !old(self).counts().contains_key(ref_id@) ==> removed is None && final(self).counts() == old(self).counts(),
            old(self).counts().contains_key(ref_id@) && old(self).counts()[ref_id@] == 1 ==> (removed matches Some(
                id,
            ) && id@ == ref_id@) && final(self).counts() == old(self).counts().remove(ref_id@),
            old(self).counts().contains_key(ref_id@) && old(self).counts()[ref_id@] != 1 ==> removed is None
                && final(self).counts() == old(self).counts().insert(
                ref_id@,
                (old(self).counts()[ref_id@] - 1) as u64,
            ),
    {
        proof {
            use_type_invariant(&*self);
        }
        let key = ref_id.to_owned();
        let mut references = StringMap::new();
        std::mem::swap(&mut references, &mut self.references);
        let r = match references.remove(&key) {
            None => None,
            Some(count) => {
                if count <= 1 {
                    Some(key)
                } else {
                    let _ = references.insert(key, count - 1);
                    proof {
                        assert(references@ =~= old(self).references@.insert(ref_id@, (count - 1) as u64));
                    }
                    None
                }
            },
        };
        self.references = references;
        r
    }
}

/// Adding a reference and then removing one leaves the counts as they were.
pub proof fn lemma_ref_add_remove(before: Map<Seq<char>, u64>, id: Seq<char>)
    requires
        forall|k: Seq<char>| #[trigger] before.contains_key(k) ==> before[k] >= 1,
        before.contains_key(id) ==> before[id] < u64::MAX,
    ensures
        ({
            let count = if before.contains_key(id) { (before[id] + 1) as u64 } else { 1u64 };
            let after_add = before.insert(id, count);
            let after_remove = if after_add[id] == 1 {
                after_add.remove(id)
            } else {
                after_add.insert(id, (after_add[id] - 1) as u64)
            };
            after_remove == before
        }),
{
    let count = if before.contains_key(id) { (before[id] + 1) as u64 } else { 1u64 };
    let after_add = before.insert(id, count);
    if after_add[id] == 1 {
        assert(after_add.remove(id) =~= before);
    } else {
        assert(after_add.insert(id, (after_add[id] - 1) as u64) =~= before);
    }
}

} // verus!
