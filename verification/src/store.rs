//! The registries' backing store: association maps with a mathematical
//! `Map` view.
//!
//! Each registry keeps its entries in insertion order with pairwise
//! distinct keys; every operation's contract is stated over the `Map`
//! abstraction of those entries.

use vstd::prelude::*;

verus! {

/// An exec-comparable map key whose comparison agrees with view equality.
pub trait MapKey: View + Sized {
    /// Whether two keys are the same key.
    fn key_eq(&self, other: &Self) -> (r: bool)
        ensures
            r == (self@ == other@),
    ;
}

impl MapKey for String {
    fn key_eq(&self, other: &Self) -> (r: bool)
        ensures
            r == (self@ == other@),
    {
        self.eq(other)
    }
}

impl MapKey for Vec<u8> {
    fn key_eq(&self, other: &Self) -> (r: bool)
        ensures
            r == (self@ == other@),
    {
        crate::bytes::bytes_eq(self.as_slice(), other.as_slice())
    }
}

/// The mathematical map held by an entry sequence: later entries win,
/// though a well-formed store never repeats a key.
pub open spec fn entries_map<K: View, V>(s: Seq<(K, V)>) -> Map<K::V, V>
    decreases s.len(),
{
    if s.len() == 0 {
        Map::empty()
    } else {
        entries_map(s.drop_last()).insert(s.last().0@, s.last().1)
    }
}

/// Pairwise distinct keys.
pub open spec fn distinct_keys<K: View, V>(s: Seq<(K, V)>) -> bool {
    forall|i: int, j: int|
        0 <= i < j < s.len() ==> (#[trigger] s[i].0@) != (#[trigger] s[j].0@)
}

/// A key that appears at no entry is absent from the map.
pub proof fn lemma_entries_map_absent<K: View, V>(s: Seq<(K, V)>, k: K::V)
    requires
        forall|i: int| 0 <= i < s.len() ==> (#[trigger] s[i].0@) != k,
    ensures
        !entries_map(s).contains_key(k),
    decreases s.len(),
{
    if s.len() > 0 {
        assert(forall|i: int|
            0 <= i < s.drop_last().len() ==> (#[trigger] s.drop_last()[i].0@) != k) by {
            assert(forall|i: int|
                0 <= i < s.drop_last().len() ==> s.drop_last()[i] == (#[trigger] s[i]));
        }
        lemma_entries_map_absent(s.drop_last(), k);
    }
}

/// The entry at index `i` is in the map, with its value, when keys are
/// distinct.
pub proof fn lemma_entries_map_index<K: View, V>(s: Seq<(K, V)>, i: int)
    requires
        distinct_keys(s),
        0 <= i < s.len(),
    ensures
        entries_map(s).contains_key(s[i].0@),
        entries_map(s)[s[i].0@] == s[i].1,
    decreases s.len(),
{
    if i == s.len() - 1 {
    } else {
        assert(distinct_keys(s.drop_last()) && s.drop_last()[i] == s[i]) by {
            assert(forall|m: int|
                0 <= m < s.drop_last().len() ==> s.drop_last()[m] == (#[trigger] s[m]));
        }
        lemma_entries_map_index(s.drop_last(), i);
        assert(s[i].0@ != s.last().0@);
    }
}

/// Removing the entry at index `i` removes exactly its key from the map.
pub proof fn lemma_entries_map_remove<K: View, V>(s: Seq<(K, V)>, i: int)
    requires
        distinct_keys(s),
        0 <= i < s.len(),
    ensures
        entries_map(s.remove(i)) =~= entries_map(s).remove(s[i].0@),
    decreases s.len(),
{
    let k = s[i].0@;
    if i == s.len() - 1 {
        assert(s.remove(i) =~= s.drop_last());
        assert(forall|m: int| 0 <= m < s.drop_last().len() ==> (#[trigger] s.drop_last()[m].0@) != k)
            by {
            assert(forall|m: int|
                0 <= m < s.drop_last().len() ==> s.drop_last()[m] == (#[trigger] s[m]));
        }
        lemma_entries_map_absent(s.drop_last(), k);
        assert(entries_map(s).remove(k) =~= entries_map(s.drop_last()));
    } else {
        let t = s.drop_last();
        assert(distinct_keys(t) && t[i] == s[i]) by {
            assert(forall|m: int| 0 <= m < t.len() ==> t[m] == (#[trigger] s[m]));
        }
        lemma_entries_map_remove(t, i);
        assert(s.remove(i).drop_last() =~= t.remove(i));
        assert(s.remove(i).last() == s.last());
        assert(entries_map(s.remove(i)) == entries_map(t.remove(i)).insert(
            s.last().0@,
            s.last().1,
        ));
        assert(k != s.last().0@);
        assert(entries_map(t.remove(i)).insert(s.last().0@, s.last().1) =~= entries_map(t).insert(
            s.last().0@,
            s.last().1,
        ).remove(k));
    }
}

/// An association store keyed by `K` with values `V`.
pub struct AssocMap<K, V> {
    entries: Vec<(K, V)>,
}

impl<K: MapKey, V> AssocMap<K, V> {
    /// The entries, for reasoning below the `Map` abstraction.
    pub closed spec fn entries_seq(self) -> Seq<(K, V)> {
        self.entries@
    }

    /// Well-formed: no key occurs twice.
    pub closed spec fn wf(self) -> bool {
        distinct_keys(self.entries@)
    }

    /// An empty store.
    pub fn new() -> (r: Self)
        ensures
            r.wf(),
            r@ =~= Map::<K::V, V>::empty(),
    {
        AssocMap { entries: Vec::new() }
    }

    /// Index of the entry holding `key`, if any.
    fn find(&self, key: &K) -> (r: Option<usize>)
        requires
            self.wf(),
        ensures
            match r {
                Some(i) => i < self.entries_seq().len() && self.entries_seq()[i as int].0@ == key@
                    && self@.contains_key(key@) && self@[key@] == self.entries_seq()[i as int].1,
                None => !self@.contains_key(key@),
            },
    {
        let n = self.entries.len();
        let mut i: usize = 0;
        while i < n
            invariant
                self.wf(),
                n == self.entries_seq().len(),
                i <= n,
                forall|m: int| 0 <= m < i ==> (#[trigger] self.entries_seq()[m].0@) != key@,
            decreases n - i,
        {
            if self.entries[i].0.key_eq(key) {
                proof {
                    lemma_entries_map_index(self.entries@, i as int);
                }
                return Some(i);
            }
            i = i + 1;
        }
        proof {
            lemma_entries_map_absent(self.entries@, key@);
        }
        None
    }

    /// Whether `key` is present.
    pub fn contains(&self, key: &K) -> (r: bool)
        requires
            self.wf(),
        ensures
            r == self@.contains_key(key@),
    {
        match self.find(key) {
            Some(_) => true,
            None => false,
        }
    }

    /// The value under `key`, if any.
    pub fn get(&self, key: &K) -> (r: Option<&V>)
        requires
            self.wf(),
        ensures
            match r {
                Some(v) => self@.contains_key(key@) && *v == self@[key@],
                None => !self@.contains_key(key@),
            },
    {
        match self.find(key) {
            Some(i) => Some(&self.entries[i].1),
            None => None,
        }
    }

    /// Binds `key` to `value`, replacing any earlier binding.
    pub fn insert(&mut self, key: K, value: V)
        requires
            old(self).wf(),
        ensures
            final(self).wf(),
            final(self)@ =~= old(self)@.insert(key@, value),
    {
        self.remove(&key);
        let ghost pre = self.entries@;
        proof {
            assert forall|m: int| 0 <= m < pre.len() implies (#[trigger] pre[m].0@) != key@ by {
                if pre[m].0@ == key@ {
                    lemma_entries_map_index(pre, m);
                }
            }
        }
        self.entries.push((key, value));
        proof {
            assert(self.entries@.drop_last() =~= pre);
            assert(forall|i: int| 0 <= i < pre.len() ==> (#[trigger] pre[i]) == self.entries@[i]);
            assert(distinct_keys(self.entries@));
            assert(old(self)@.remove(key@).insert(key@, value) =~= old(self)@.insert(key@, value));
        }
    }

    /// Takes the value bound to `key` out of the store, if any.
    pub fn take(&mut self, key: &K) -> (r: Option<V>)
        requires
            old(self).wf(),
        ensures
            final(self).wf(),
            match r {
                Some(v) => old(self)@.contains_key(key@) && v == old(self)@[key@] && final(self)@
                    =~= old(self)@.remove(key@),
                None => !old(self)@.contains_key(key@) && final(self)@ =~= old(self)@,
            },
    {
        match self.find(key) {
            Some(i) => {
                proof {
                    lemma_entries_map_remove(self.entries@, i as int);
                }
                let entry = self.entries.remove(i);
                proof {
                    assert(forall|a: int, b: int|
                        0 <= a < b < self.entries@.len() ==> (#[trigger] self.entries@[a].0@) != (
                        #[trigger] self.entries@[b].0@)) by {
                        assert(forall|m: int|
                            0 <= m < self.entries@.len() ==> self.entries@[m] == (
                            #[trigger] old(self).entries_seq().remove(i as int)[m]));
                    }
                }
                Some(entry.1)
            },
            None => None,
        }
    }

    /// Drops the binding of `key`, if any.
    pub fn remove(&mut self, key: &K)
        requires
            old(self).wf(),
        ensures
            final(self).wf(),
            final(self)@ =~= old(self)@.remove(key@),
    {
        match self.find(key) {
            Some(i) => {
                proof {
                    lemma_entries_map_remove(self.entries@, i as int);
                }
                self.entries.remove(i);
                proof {
                    assert(forall|a: int, b: int|
                        0 <= a < b < self.entries@.len() ==> (#[trigger] self.entries@[a].0@) != (
                        #[trigger] self.entries@[b].0@)) by {
                        assert(forall|m: int|
                            0 <= m < self.entries@.len() ==> self.entries@[m] == (
                            #[trigger] old(self).entries_seq().remove(i as int)[m]));
                    }
                }
            },
            None => {
                proof {
                    assert(old(self)@.remove(key@) =~= old(self)@);
                }
            },
        }
    }
}

impl<K: MapKey, V> View for AssocMap<K, V> {
    type V = Map<<K as View>::V, V>;

    closed spec fn view(&self) -> Map<<K as View>::V, V> {
        entries_map(self.entries@)
    }
}

} // verus!
