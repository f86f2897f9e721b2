//! Verified association tables backing the in-memory store.
//!
//! A table is a sequence of key/value entries whose mathematical content is
//! a `Map` from key characters to specification-level values; a later entry
//! for a key shadows every earlier one, which gives the store its
//! last-write-wins overwrite semantics. Shadowed entries are kept, not
//! reclaimed: the store has no eviction, and reads always serve the most
//! recent entry.

use vstd::prelude::*;

verus! {

/// The map described by an entry sequence: later entries shadow earlier
/// ones with the same key.
pub open spec fn entries_to_map<V: DeepView>(entries: Seq<(String, V)>) -> Map<
    Seq<char>,
    V::V,
>
    decreases entries.len(),
{
    if entries.len() == 0 {
        Map::empty()
    } else {
        entries_to_map(entries.drop_last()).insert(
            entries.last().0@,
            entries.last().1.deep_view(),
        )
    }
}

/// Entries after position `i` do not mention key `k`, so the map agrees at
/// `k` with the map of the first `i` entries.
proof fn lemma_entries_agree_below<V: DeepView>(entries: Seq<(String, V)>, k: Seq<char>, i: int)
    requires
        0 <= i <= entries.len(),
        forall|j: int| i <= j < entries.len() ==> entries[j].0@ != k,
    ensures
        entries_to_map(entries).contains_key(k) == entries_to_map(entries.take(i)).contains_key(k),
        entries_to_map(entries).contains_key(k) ==> entries_to_map(entries)[k] == entries_to_map(
            entries.take(i),
        )[k],
    decreases entries.len() - i,
{
    if i == entries.len() {
        assert(entries.take(i) =~= entries);
    } else {
        lemma_entries_agree_below(entries, k, i + 1);
        assert(entries.take(i + 1).drop_last() =~= entries.take(i));
        assert(entries.take(i + 1).last() == entries[i]);
    }
}

/// A map from string keys to values, with last-write-wins inserts.
pub struct StrTable<V> {
    entries: Vec<(String, V)>,
}

impl<V: DeepView> View for StrTable<V> {
    type V = Map<Seq<char>, V::V>;

    closed spec fn view(&self) -> Map<Seq<char>, V::V> {
        entries_to_map(self.entries@)
    }
}

impl<V: DeepView> StrTable<V> {
    pub fn new() -> (r: Self)
        ensures
            r@ == Map::<Seq<char>, V::V>::empty(),
    {
        StrTable { entries: Vec::new() }
    }

    pub fn insert(&mut self, key: String, value: V)
        ensures
            final(self)@ == old(self)@.insert(key@, value.deep_view()),
    {
        self.entries.push((key, value));
        proof {
            assert(self.entries@.drop_last() =~= old(self).entries@);
        }
    }

    pub fn get(&self, key: &str) -> (r: Option<&V>)
        ensures
            (match r {
                Some(v) => self@.contains_key(key@) && v.deep_view() == self@[key@],
                None => !self@.contains_key(key@),
            }),
    {
        let k = key.to_owned();
        let mut i: usize = self.entries.len();
        while i > 0
            invariant
                i <= self.entries@.len(),
                k@ == key@,
                forall|j: int| i <= j < self.entries@.len() ==> self.entries@[j].0@ != key@,
            decreases i,
        {
            i = i - 1;
            let e = &self.entries[i];
            if e.0 == k {
                proof {
                    lemma_entries_agree_below(self.entries@, key@, i as int + 1);
                    assert(self.entries@.take(i as int + 1).drop_last() =~= self.entries@.take(
                        i as int,
                    ));
                    assert(self.entries@.take(i as int + 1).last() == self.entries@[i as int]);
                }
                return Some(&e.1);
            }
        }
        proof {
            lemma_entries_agree_below(self.entries@, key@, 0);
            assert(self.entries@.take(0) =~= Seq::<(String, V)>::empty());
        }
        None
    }
}

/// The map described by a sequence of pair-keyed entries.
pub open spec fn pair_entries_to_map<V: DeepView>(
    entries: Seq<((String, String), V)>,
) -> Map<(Seq<char>, Seq<char>), V::V>
    decreases entries.len(),
{
    if entries.len() == 0 {
        Map::empty()
    } else {
        pair_entries_to_map(entries.drop_last()).insert(
            (entries.last().0.0@, entries.last().0.1@),
            entries.last().1.deep_view(),
        )
    }
}

/// Entries after position `i` do not mention key `k`, so the map agrees at
/// `k` with the map of the first `i` entries.
proof fn lemma_pair_entries_agree_below<V: DeepView>(
    entries: Seq<((String, String), V)>,
    k: (Seq<char>, Seq<char>),
    i: int,
)
    requires
        0 <= i <= entries.len(),
        forall|j: int| i <= j < entries.len() ==> (entries[j].0.0@, entries[j].0.1@) != k,
    ensures
        pair_entries_to_map(entries).contains_key(k) == pair_entries_to_map(
            entries.take(i),
        ).contains_key(k),
        pair_entries_to_map(entries).contains_key(k) ==> pair_entries_to_map(entries)[k]
            == pair_entries_to_map(entries.take(i))[k],
    decreases entries.len() - i,
{
    if i == entries.len() {
        assert(entries.take(i) =~= entries);
    } else {
        lemma_pair_entries_agree_below(entries, k, i + 1);
        assert(entries.take(i + 1).drop_last() =~= entries.take(i));
        assert(entries.take(i + 1).last() == entries[i]);
    }
}

/// A map from pairs of string keys to values, with last-write-wins inserts.
pub struct PairTable<V> {
    entries: Vec<((String, String), V)>,
}

impl<V: DeepView> View for PairTable<V> {
    type V = Map<(Seq<char>, Seq<char>), V::V>;

    closed spec fn view(&self) -> Map<(Seq<char>, Seq<char>), V::V> {
        pair_entries_to_map(self.entries@)
    }
}

impl<V: DeepView> PairTable<V> {
    pub fn new() -> (r: Self)
        ensures
            r@ == Map::<(Seq<char>, Seq<char>), V::V>::empty(),
    {
        PairTable { entries: Vec::new() }
    }

    pub fn insert(&mut self, key0: String, key1: String, value: V)
        ensures
            final(self)@ == old(self)@.insert((key0@, key1@), value.deep_view()),
    {
        self.entries.push(((key0, key1), value));
        proof {
            assert(self.entries@.drop_last() =~= old(self).entries@);
        }
    }

    pub fn get(&self, key0: &str, key1: &str) -> (r: Option<&V>)
        ensures
            (match r {
                Some(v) => self@.contains_key((key0@, key1@)) && v.deep_view()
                    == self@.index((key0@, key1@)),
                None => !self@.contains_key((key0@, key1@)),
            }),
    {
        let k0 = key0.to_owned();
        let k1 = key1.to_owned();
        let mut i: usize = self.entries.len();
        while i > 0
            invariant
                i <= self.entries@.len(),
                k0@ == key0@,
                k1@ == key1@,
                forall|j: int|
                    i <= j < self.entries@.len() ==> (self.entries@[j].0.0@, self.entries@[j].0.1@)
                        != (key0@, key1@),
            decreases i,
        {
            i = i - 1;
            let e = &self.entries[i];
            if e.0.0 == k0 && e.0.1 == k1 {
                proof {
                    lemma_pair_entries_agree_below(self.entries@, (key0@, key1@), i as int + 1);
                    assert(self.entries@.take(i as int + 1).drop_last() =~= self.entries@.take(
                        i as int,
                    ));
                    assert(self.entries@.take(i as int + 1).last() == self.entries@[i as int]);
                }
                return Some(&e.1);
            }
        }
        proof {
            lemma_pair_entries_agree_below(self.entries@, (key0@, key1@), 0);
            assert(self.entries@.take(0) =~= Seq::<((String, String), V)>::empty());
        }
        None
    }
}

} // verus!
