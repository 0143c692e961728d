//! A string-keyed association table with distinct keys, viewed as a
//! `Map<Seq<char>, V::V>`. It stands in for the mutex-guarded hash maps the
//! shell keeps process-wide: the window registry and the menu translations.
use vstd::prelude::*;

verus! {

pub struct MapEntry<V> {
    key: String,
    value: V,
}

/// An association table from string keys to values of `V`, with each key
/// held at most once. Its mathematical view is a `Map<Seq<char>, V::V>`.
pub struct StrMap<V> {
    entries: Vec<MapEntry<V>>,
}

spec fn has_key<V>(s: Seq<MapEntry<V>>, k: Seq<char>) -> bool {
    exists|i: int| 0 <= i < s.len() && s[i].key@ == k
}

spec fn key_index<V>(s: Seq<MapEntry<V>>, k: Seq<char>) -> int {
    choose|i: int| 0 <= i < s.len() && s[i].key@ == k
}

spec fn distinct_keys<V>(s: Seq<MapEntry<V>>) -> bool {
    forall|i: int, j: int| 0 <= i < j < s.len() ==> s[i].key@ != s[j].key@
}

/// Every occurrence of a key is the one `key_index` picks, so a key
/// determines its entry whenever keys are distinct.
proof fn lemma_unique_index<V>(s: Seq<MapEntry<V>>, j: int, k: Seq<char>)
    requires
        distinct_keys(s),
        0 <= j < s.len(),
        s[j].key@ == k,
    ensures
        has_key(s, k),
        key_index(s, k) == j,
{
    assert(has_key(s, k));
    let i = key_index(s, k);
    assert(0 <= i < s.len() && s[i].key@ == k);
    if i < j {
        assert(s[i].key@ != s[j].key@);
    } else if j < i {
        assert(s[j].key@ != s[i].key@);
    }
}

impl<V: View> View for StrMap<V> {
    type V = Map<Seq<char>, V::V>;

    closed spec fn view(&self) -> Map<Seq<char>, V::V> {
        Map::new(
            |k: Seq<char>| has_key(self.entries@, k),
            |k: Seq<char>| self.entries@[key_index(self.entries@, k)].value@,
        )
    }
}

impl<V: View> StrMap<V> {
    /// Well-formedness: no key occurs twice. Constructors establish it and
    /// every method preserves it.
    pub closed spec fn wf(&self) -> bool {
        distinct_keys(self.entries@)
    }

    /// An empty table.
    pub fn new() -> (r: Self)
        ensures
            r.wf(),
            r@ == Map::<Seq<char>, V::V>::empty(),
    {
        let r = StrMap { entries: Vec::new() };
        proof {
            assert(r@ =~= Map::<Seq<char>, V::V>::empty());
        }
        r
    }

    fn find(&self, key: &String) -> (r: Option<usize>)
        ensures
            r matches Some(i) ==> i < self.entries@.len() && self.entries@[i as int].key@
                == key@,
            r is None ==> !has_key(self.entries@, key@),
    {
        let mut i: usize = 0;
        while i < self.entries.len()
            invariant
                i <= self.entries@.len(),
                forall|j: int| 0 <= j < i ==> self.entries@[j].key@ != key@,
            decreases self.entries@.len() - i,
        {
            if self.entries[i].key == *key {
                return Some(i);
            }
            i = i + 1;
        }
        None
    }

    /// Whether the table holds an entry for `key`.
    pub fn contains(&self, key: &String) -> (r: bool)
        requires
            self.wf(),
        ensures
            r == self@.dom().contains(key@),
    {
        let found = self.find(key);
        proof {
            if let Some(i) = found {
                lemma_unique_index(self.entries@, i as int, key@);
            }
        }
        found.is_some()
    }

    /// Record `state` for `key`: a fresh key gains an entry, an existing
    /// key has its entry replaced.
    pub fn insert(&mut self, key: &String, state: V)
        requires
            old(self).wf(),
        ensures
            final(self).wf(),
            final(self)@ == old(self)@.insert(key@, state@),
    {
        let ghost s = self.entries@;
        match self.find(key) {
            Some(i) => {
                let entry = MapEntry { key: key.clone(), value: state };
                self.entries.set(i, entry);
                proof {
                    let s2 = self.entries@;
                    assert forall|m: int, n: int| 0 <= m < n < s2.len() implies s2[m].key@
                        != s2[n].key@ by {
                        assert(s[m].key@ != s[n].key@);
                    }
                    lemma_view_after_update(s, s2, i as int, key@);
                    assert(self@ =~= old(self)@.insert(key@, state@));
                }
            },
            None => {
                let entry = MapEntry { key: key.clone(), value: state };
                self.entries.push(entry);
                proof {
                    let s2 = self.entries@;
                    assert forall|m: int, n: int| 0 <= m < n < s2.len() implies s2[m].key@
                        != s2[n].key@ by {
                        if n < s.len() {
                            assert(s[m].key@ != s[n].key@);
                        } else {
                            assert(s2[n].key@ == key@);
                            assert(s2[m] == s[m]);
                        }
                    }
                    lemma_view_after_push(s, s2, key@);
                    assert(self@ =~= old(self)@.insert(key@, state@));
                }
            },
        }
    }

    /// Drop the entry for `key`, if any; reports whether one was present.
    /// Every other entry is left untouched.
    pub fn remove(&mut self, key: &String) -> (removed: bool)
        requires
            old(self).wf(),
        ensures
            final(self).wf(),
            final(self)@ == old(self)@.remove(key@),
            removed == old(self)@.dom().contains(key@),
    {
        let ghost s = self.entries@;
        match self.find(key) {
            Some(i) => {
                self.entries.remove(i);
                proof {
                    lemma_unique_index(s, i as int, key@);
                    s.remove_ensures(i as int);
                    let s2 = self.entries@;
                    assert forall|m: int, n: int| 0 <= m < n < s2.len() implies s2[m].key@
                        != s2[n].key@ by {
                        let m0 = if m < i { m } else { m + 1 };
                        let n0 = if n < i { n } else { n + 1 };
                        assert(s2[m] == s[m0] && s2[n] == s[n0]);
                        assert(s[m0].key@ != s[n0].key@);
                    }
                    lemma_view_after_remove(s, s2, i as int, key@);
                    assert(self@ =~= old(self)@.remove(key@));
                }
                true
            },
            None => {
                proof {
                    assert(self@ =~= old(self)@.remove(key@));
                }
                false
            },
        }
    }

    /// Read the value stored for `key`.
    pub fn get(&self, key: &String) -> (r: Option<&V>)
        requires
            self.wf(),
        ensures
            r matches Some(st) ==> self@.dom().contains(key@) && st@ == self@[key@],
            r is None ==> !self@.dom().contains(key@),
    {
        match self.find(key) {
            Some(i) => {
                proof {
                    lemma_unique_index(self.entries@, i as int, key@);
                }
                Some(&self.entries[i].value)
            },
            None => None,
        }
    }
}

impl<V: View> StrMap<V> {
    /// Number of live entries.
    pub fn len(&self) -> (r: usize)
        requires
            self.wf(),
        ensures
            self@.dom().finite(),
            r == self@.dom().len(),
    {
        proof {
            self.lemma_dom_finite();
        }
        self.entries.len()
    }

    /// The view's domain is exactly the set of stored keys, hence finite,
    /// with one entry per key.
    proof fn lemma_dom_finite(&self)
        requires
            self.wf(),
        ensures
            self@.dom().finite(),
            self@.dom().len() == self.entries@.len(),
    {
        broadcast use vstd::seq_lib::seq_to_set_is_finite;

        let s = self.entries@;
        let labels = Seq::new(s.len(), |i: int| s[i].key@);
        assert(labels.no_duplicates()) by {
            assert forall|i: int, j: int|
                0 <= i < labels.len() && 0 <= j < labels.len() && i != j implies labels[i]
                != labels[j] by {
                if i < j {
                    assert(s[i].key@ != s[j].key@);
                } else {
                    assert(s[j].key@ != s[i].key@);
                }
            }
        }
        assert(self@.dom() =~= labels.to_set()) by {
            assert forall|k: Seq<char>| self@.dom().contains(k) implies labels.to_set().contains(
                k,
            ) by {
                let i = key_index(s, k);
                assert(labels[i] == k);
                assert(labels.contains(k));
            }
            assert forall|k: Seq<char>| labels.to_set().contains(k) implies self@.dom().contains(
                k,
            ) by {
                let i = choose|i: int| 0 <= i < labels.len() && labels[i] == k;
                assert(s[i].key@ == k);
            }
        }
        labels.unique_seq_to_set();
    }
}

/// After replacing the entry at `i` (same label `k`), the registry view is
/// the old view with `k` remapped.
proof fn lemma_view_after_update<V>(s: Seq<MapEntry<V>>, s2: Seq<MapEntry<V>>, i: int, k: Seq<char>)
    requires
        distinct_keys(s),
        distinct_keys(s2),
        0 <= i < s.len(),
        s2.len() == s.len(),
        s[i].key@ == k,
        s2[i].key@ == k,
        forall|j: int| 0 <= j < s.len() && j != i ==> s2[j] == s[j],
    ensures
        forall|k2: Seq<char>| has_key(s2, k2) <==> has_key(s, k2),
        forall|k2: Seq<char>|
            has_key(s2, k2) && k2 != k ==> s2[key_index(s2, k2)]
                == s[key_index(s, k2)],
        key_index(s2, k) == i,
{
    assert forall|k2: Seq<char>| has_key(s2, k2) implies has_key(s, k2) by {
        let j = key_index(s2, k2);
        assert(0 <= j < s2.len() && s2[j].key@ == k2);
        if j == i {
            assert(s[j].key@ == k2);
        } else {
            assert(s[j] == s2[j]);
        }
        assert(has_key(s, k2));
    }
    assert forall|k2: Seq<char>| has_key(s, k2) implies has_key(s2, k2) by {
        let j = key_index(s, k2);
        if j == i {
            assert(s2[j].key@ == k2);
        } else {
            assert(s2[j] == s[j]);
        }
        assert(has_key(s2, k2));
    }
    assert forall|k2: Seq<char>| has_key(s2, k2) && k2 != k implies s2[key_index(
        s2,
        k2,
    )] == s[key_index(s, k2)] by {
        let j2 = key_index(s2, k2);
        assert(0 <= j2 < s2.len() && s2[j2].key@ == k2);
        assert(j2 != i);
        assert(s2[j2] == s[j2]);
        lemma_unique_index(s, j2, k2);
    }
    lemma_unique_index(s2, i, k);
}

/// Appending an entry with a fresh label adds exactly that mapping.
proof fn lemma_view_after_push<V>(s: Seq<MapEntry<V>>, s2: Seq<MapEntry<V>>, k: Seq<char>)
    requires
        distinct_keys(s),
        distinct_keys(s2),
        s2.len() == s.len() + 1,
        s2[s.len() as int].key@ == k,
        forall|j: int| 0 <= j < s.len() ==> s2[j] == s[j],
    ensures
        forall|k2: Seq<char>| has_key(s2, k2) <==> has_key(s, k2) || k2 == k,
        forall|k2: Seq<char>|
            has_key(s, k2) && k2 != k ==> has_key(s2, k2) && s2[key_index(
                s2,
                k2,
            )] == s[key_index(s, k2)],
        key_index(s2, k) == s.len() as int,
{
    assert forall|k2: Seq<char>| has_key(s2, k2) implies has_key(s, k2) || k2
        == k by {
        let j = key_index(s2, k2);
        assert(0 <= j < s2.len() && s2[j].key@ == k2);
        if j < s.len() {
            assert(s[j] == s2[j]);
            assert(has_key(s, k2));
        } else {
            assert(k2 == k);
        }
    }
    assert forall|k2: Seq<char>| has_key(s, k2) || k2 == k implies has_key(
        s2,
        k2,
    ) by {
        if has_key(s, k2) {
            let j = key_index(s, k2);
            assert(s2[j] == s[j]);
            assert(has_key(s2, k2));
        } else {
            assert(s2[s.len() as int].key@ == k2);
            assert(has_key(s2, k2));
        }
    }
    assert forall|k2: Seq<char>| has_key(s, k2) && k2 != k implies has_key(s2, k2)
        && s2[key_index(s2, k2)] == s[key_index(s, k2)] by {
        let j = key_index(s, k2);
        assert(0 <= j < s.len() && s[j].key@ == k2);
        assert(s2[j] == s[j]);
        lemma_unique_index(s2, j, k2);
        lemma_unique_index(s, j, k2);
    }
    lemma_unique_index(s2, s.len() as int, k);
}

/// Removing the entry at `i` drops exactly its label's mapping.
proof fn lemma_view_after_remove<V>(s: Seq<MapEntry<V>>, s2: Seq<MapEntry<V>>, i: int, k: Seq<char>)
    requires
        distinct_keys(s),
        distinct_keys(s2),
        0 <= i < s.len(),
        s2.len() == s.len() - 1,
        s[i].key@ == k,
        forall|j: int| 0 <= j < i ==> s2[j] == s[j],
        forall|j: int| i <= j < s2.len() ==> s2[j] == s[j + 1],
    ensures
        forall|k2: Seq<char>| has_key(s2, k2) <==> has_key(s, k2) && k2 != k,
        forall|k2: Seq<char>|
            has_key(s2, k2) ==> s2[key_index(s2, k2)] == s[key_index(s, k2)],
{
    assert forall|k2: Seq<char>| has_key(s2, k2) implies has_key(s, k2) && k2
        != k by {
        let j = key_index(s2, k2);
        assert(0 <= j < s2.len() && s2[j].key@ == k2);
        let j0 = if j < i { j } else { j + 1 };
        assert(s2[j] == s[j0]);
        assert(has_key(s, k2));
        assert(j0 != i);
        lemma_unique_index(s, j0, k2);
        lemma_unique_index(s, i, k);
        if k2 == k {
            assert(j0 == i);
        }
    }
    assert forall|k2: Seq<char>| has_key(s, k2) && k2 != k implies has_key(
        s2,
        k2,
    ) by {
        let j = key_index(s, k2);
        assert(0 <= j < s.len() && s[j].key@ == k2);
        assert(j != i);
        let j2 = if j < i { j } else { j - 1 };
        assert(s2[j2] == s[j]);
        assert(has_key(s2, k2));
    }
    assert forall|k2: Seq<char>| has_key(s2, k2) implies s2[key_index(s2, k2)]
        == s[key_index(s, k2)] by {
        let j2 = key_index(s2, k2);
        assert(0 <= j2 < s2.len() && s2[j2].key@ == k2);
        let j0 = if j2 < i { j2 } else { j2 + 1 };
        assert(s2[j2] == s[j0]);
        lemma_unique_index(s, j0, k2);
    }
}

} // verus!
