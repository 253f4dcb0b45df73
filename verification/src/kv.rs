//! A keyed record list with point lookups by address: the executable
//! backing of the record store, modelled as a `Map` from address bytes to
//! the values' views.
use vstd::prelude::*;

use crate::address::Address;

verus! {

/// The map a key-value sequence stands for: later entries win, though the
/// lists kept here never repeat a key.
pub open spec fn assoc_map<V: View>(s: Seq<(Address, V)>) -> Map<Seq<u8>, V::V>
    decreases s.len(),
{
    if s.len() == 0 {
        Map::empty()
    } else {
        assoc_map(s.drop_last()).insert(s.last().0@, s.last().1@)
    }
}

/// No two entries share a key.
pub open spec fn distinct_keys<V>(s: Seq<(Address, V)>) -> bool {
    forall|i: int, j: int| 0 <= i < j < s.len() ==> s[i].0@ != s[j].0@
}

/// A key is in the map exactly when some entry carries it.
pub proof fn lemma_assoc_contains<V: View>(s: Seq<(Address, V)>, k: Seq<u8>)
    ensures
        assoc_map(s).dom().contains(k) <==> (exists|i: int| 0 <= i < s.len() && s[i].0@ == k),
    decreases s.len(),
{
    if s.len() == 0 {
    } else {
        lemma_assoc_contains(s.drop_last(), k);
        if s.last().0@ == k {
            assert(s[s.len() - 1].0@ == k);
        } else {
            if exists|i: int| 0 <= i < s.len() && s[i].0@ == k {
                let i = choose|i: int| 0 <= i < s.len() && s[i].0@ == k;
                assert(s.drop_last()[i].0@ == k);
            }
            if exists|i: int| 0 <= i < s.drop_last().len() && s.drop_last()[i].0@ == k {
                let i = choose|i: int| 0 <= i < s.drop_last().len() && s.drop_last()[i].0@ == k;
                assert(s[i].0@ == k);
            }
        }
    }
}

/// With distinct keys, the entry carrying a key gives its map value.
pub proof fn lemma_assoc_get<V: View>(s: Seq<(Address, V)>, i: int)
    requires
        distinct_keys(s),
        0 <= i < s.len(),
    ensures
        assoc_map(s).dom().contains(s[i].0@),
        assoc_map(s)[s[i].0@] == s[i].1@,
    decreases s.len(),
{
    if i == s.len() - 1 {
    } else {
        assert(distinct_keys(s.drop_last())) by {
            assert(forall|a: int, b: int|
                0 <= a < b < s.drop_last().len() ==> s.drop_last()[a].0@ != s.drop_last()[b].0@);
        }
        lemma_assoc_get(s.drop_last(), i);
        assert(s.last().0@ != s[i].0@);
        assert(s.drop_last()[i] == s[i]);
    }
}

/// With distinct keys, dropping the entry at an index removes exactly its
/// key from the map.
pub proof fn lemma_assoc_remove<V: View>(s: Seq<(Address, V)>, i: int)
    requires
        distinct_keys(s),
        0 <= i < s.len(),
    ensures
        distinct_keys(s.remove(i)),
        assoc_map(s.remove(i)) == assoc_map(s).remove(s[i].0@),
{
    let k = s[i].0@;
    let t = s.remove(i);
    assert forall|a: int, b: int| 0 <= a < b < t.len() implies t[a].0@ != t[b].0@ by {
        let a2: int = if a < i { a } else { a + 1 };
        let b2: int = if b < i { b } else { b + 1 };
        assert(t[a] == s[a2]);
        assert(t[b] == s[b2]);
    }
    assert forall|k2: Seq<u8>| #[trigger] assoc_map(t).dom().contains(k2) implies
        assoc_map(s).remove(k).dom().contains(k2) && assoc_map(t)[k2] == assoc_map(s).remove(k)[k2] by {
        lemma_assoc_contains(t, k2);
        let j = choose|j: int| 0 <= j < t.len() && t[j].0@ == k2;
        let j2: int = if j < i { j } else { j + 1 };
        assert(t[j] == s[j2]);
        assert(k2 != k);
        lemma_assoc_get(t, j);
        lemma_assoc_get(s, j2);
    }
    assert forall|k2: Seq<u8>| #[trigger] assoc_map(s).remove(k).dom().contains(k2) implies
        assoc_map(t).dom().contains(k2) by {
        lemma_assoc_contains(s, k2);
        let j2 = choose|j2: int| 0 <= j2 < s.len() && s[j2].0@ == k2;
        assert(j2 != i);
        let j: int = if j2 < i { j2 } else { j2 - 1 };
        assert(t[j] == s[j2]);
        lemma_assoc_contains(t, k2);
    }
    assert(assoc_map(t) =~= assoc_map(s).remove(k));
}

/// A keyed list of records with no repeated key; its view is the map from
/// key bytes to value views.
pub struct KvList<V> {
    entries: Vec<(Address, V)>,
}

impl<V: View> View for KvList<V> {
    type V = Map<Seq<u8>, V::V>;

    closed spec fn view(&self) -> Map<Seq<u8>, V::V> {
        assoc_map(self.entries@)
    }
}

impl<V: View> KvList<V> {
    pub closed spec fn wf(&self) -> bool {
        distinct_keys(self.entries@)
    }

    pub fn new() -> (r: KvList<V>)
        ensures
            r.wf(),
            r@ == Map::<Seq<u8>, V::V>::empty(),
    {
        let r = KvList { entries: Vec::new() };
        proof {
            assert(r.entries@.len() == 0);
        }
        r
    }

    fn index_of(&self, key: &Address) -> (r: Option<usize>)
        ensures
            match r {
                Some(i) => i < self.entries@.len() && self.entries@[i as int].0@ == key@,
                None => forall|j: int| 0 <= j < self.entries@.len() ==> self.entries@[j].0@ != key@,
            },
    {
        let mut i: usize = 0;
        while i < self.entries.len()
            invariant
                i <= self.entries@.len(),
                forall|j: int| 0 <= j < i ==> self.entries@[j].0@ != key@,
            decreases self.entries@.len() - i,
        {
            if self.entries[i].0.equals(key) {
                return Some(i);
            }
            i += 1;
        }
        None
    }

    pub fn contains_key(&self, key: &Address) -> (r: bool)
        requires
            self.wf(),
        ensures
            r == self@.dom().contains(key@),
    {
        match self.index_of(key) {
            Some(i) => {
                proof {
                    lemma_assoc_get(self.entries@, i as int);
                }
                true
            },
            None => {
                proof {
                    lemma_assoc_contains(self.entries@, key@);
                }
                false
            },
        }
    }

    pub fn get(&self, key: &Address) -> (r: Option<&V>)
        requires
            self.wf(),
        ensures
            match r {
                Some(v) => self@.dom().contains(key@) && v@ == self@[key@],
                None => !self@.dom().contains(key@),
            },
    {
        match self.index_of(key) {
            Some(i) => {
                proof {
                    lemma_assoc_get(self.entries@, i as int);
                }
                Some(&self.entries[i].1)
            },
            None => {
                proof {
                    lemma_assoc_contains(self.entries@, key@);
                }
                None
            },
        }
    }

    /// Inserts or replaces the value under a key.
    pub fn set(&mut self, key: Address, value: V)
        requires
            old(self).wf(),
        ensures
            final(self).wf(),
            final(self)@ == old(self)@.insert(key@, value@),
    {
        let ghost s0 = self.entries@;
        match self.index_of(&key) {
            Some(i) => {
                proof {
                    lemma_assoc_remove(s0, i as int);
                }
                let _replaced = self.entries.remove(i);
                let ghost s1 = self.entries@;
                proof {
                    lemma_assoc_contains(s1, key@);
                }
                self.entries.push((key, value));
                proof {
                    assert(self.entries@.drop_last() =~= s1);
                    assert(forall|j: int| 0 <= j < s1.len() ==> s1[j].0@ != key@) by {
                        lemma_assoc_contains(s1, key@);
                    }
                    assert forall|a: int, b: int| 0 <= a < b < self.entries@.len() implies
                        self.entries@[a].0@ != self.entries@[b].0@ by {
                        if b == s1.len() {
                            assert(self.entries@[a] == s1[a]);
                        } else {
                            assert(self.entries@[a] == s1[a]);
                            assert(self.entries@[b] == s1[b]);
                        }
                    }
                    assert(self@ =~= old(self)@.insert(key@, value@));
                }
            },
            None => {
                self.entries.push((key, value));
                proof {
                    assert(self.entries@.drop_last() =~= s0);
                    assert forall|a: int, b: int| 0 <= a < b < self.entries@.len() implies
                        self.entries@[a].0@ != self.entries@[b].0@ by {
                        if b == s0.len() {
                            assert(self.entries@[a] == s0[a]);
                        } else {
                            assert(self.entries@[a] == s0[a]);
                            assert(self.entries@[b] == s0[b]);
                        }
                    }
                    assert(self@ =~= old(self)@.insert(key@, value@));
                }
            },
        }
    }

    /// Removes the entry under a key that is present.
    pub fn remove(&mut self, key: &Address)
        requires
            old(self).wf(),
            old(self)@.dom().contains(key@),
        ensures
            final(self).wf(),
            final(self)@ == old(self)@.remove(key@),
    {
        let ghost s0 = self.entries@;
        match self.index_of(key) {
            Some(i) => {
                proof {
                    lemma_assoc_remove(s0, i as int);
                }
                let _removed = self.entries.remove(i);
            },
            None => {
                proof {
                    lemma_assoc_contains(s0, key@);
                    assert(false);
                }
            },
        }
    }
}

} // verus!
