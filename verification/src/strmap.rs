//! A map from text keys to values, kept as a list of entries whose keys are
//! pairwise distinct. Its view is the mathematical map of those entries.

use vstd::prelude::*;

verus! {

/// The map that a list of entries stands for. A later entry replaces an
/// earlier one with the same key.
pub open spec fn map_of<W>(entries: Seq<(Seq<char>, W)>) -> Map<Seq<char>, W>
    decreases entries.len(),
{
    if entries.len() == 0 {
        Map::empty()
    } else {
        map_of(entries.drop_last()).insert(entries.last().0, entries.last().1)
    }
}

/// No two entries share a key.
pub open spec fn distinct_keys<W>(entries: Seq<(Seq<char>, W)>) -> bool {
    forall|i: int, j: int| 0 <= i < j < entries.len() ==> entries[i].0 != entries[j].0
}

/// Some entry has the key `k`.
pub open spec fn has_key<W>(entries: Seq<(Seq<char>, W)>, k: Seq<char>) -> bool {
    exists|i: int| 0 <= i < entries.len() && #[trigger] entries[i].0 == k
}

/// The keys of `map_of(entries)` are the keys of the entries.
pub proof fn lemma_map_of_domain<W>(entries: Seq<(Seq<char>, W)>, k: Seq<char>)
    ensures
        map_of(entries).contains_key(k) <==> has_key(entries, k),
    decreases entries.len(),
{
    if entries.len() > 0 {
        let front = entries.drop_last();
        lemma_map_of_domain(front, k);
        if has_key(front, k) {
            let i = choose|i: int| 0 <= i < front.len() && #[trigger] front[i].0 == k;
            assert(entries[i].0 == k);
        }
        if has_key(entries, k) {
            let i = choose|i: int| 0 <= i < entries.len() && #[trigger] entries[i].0 == k;
            if i < front.len() {
                assert(front[i].0 == k);
            }
        }
    }
}

/// With distinct keys, each entry's key maps to that entry's value.
pub proof fn lemma_map_of_entry<W>(entries: Seq<(Seq<char>, W)>, i: int)
    requires
        distinct_keys(entries),
        0 <= i < entries.len(),
    ensures
        map_of(entries).contains_key(entries[i].0),
        map_of(entries)[entries[i].0] == entries[i].1,
    decreases entries.len(),
{
    let front = entries.drop_last();
    if i < entries.len() - 1 {
        assert(distinct_keys(front)) by {
            assert forall|a: int, b: int| 0 <= a < b < front.len() implies front[a].0
                != front[b].0 by {
                assert(entries[a].0 != entries[b].0);
            }
        }
        lemma_map_of_entry(front, i);
        assert(entries[i].0 != entries.last().0);
    }
}

/// With distinct keys, replacing the value of entry `i` is an insertion
/// under that entry's key.
pub proof fn lemma_map_of_replace<W>(entries: Seq<(Seq<char>, W)>, i: int, w: W)
    requires
        distinct_keys(entries),
        0 <= i < entries.len(),
    ensures
        distinct_keys(entries.update(i, (entries[i].0, w))),
        map_of(entries.update(i, (entries[i].0, w))) == map_of(entries).insert(entries[i].0, w),
    decreases entries.len(),
{
    let k = entries[i].0;
    let changed = entries.update(i, (k, w));
    let front = entries.drop_last();
    assert(distinct_keys(changed)) by {
        assert forall|a: int, b: int| 0 <= a < b < changed.len() implies changed[a].0
            != changed[b].0 by {
            assert(entries[a].0 != entries[b].0);
        }
    }
    if i == entries.len() - 1 {
        assert(changed.drop_last() =~= front);
        assert(map_of(changed) =~= map_of(entries).insert(k, w));
    } else {
        assert(distinct_keys(front)) by {
            assert forall|a: int, b: int| 0 <= a < b < front.len() implies front[a].0
                != front[b].0 by {
                assert(entries[a].0 != entries[b].0);
            }
        }
        lemma_map_of_replace(front, i, w);
        assert(changed.drop_last() =~= front.update(i, (k, w)));
        assert(entries[i].0 != entries.last().0);
        assert(map_of(changed) =~= map_of(entries).insert(k, w));
    }
}

/// With distinct keys, the map has as many keys as there are entries.
pub proof fn lemma_map_of_len<W>(entries: Seq<(Seq<char>, W)>)
    requires
        distinct_keys(entries),
    ensures
        map_of(entries).dom().finite(),
        map_of(entries).len() == entries.len(),
    decreases entries.len(),
{
    if entries.len() > 0 {
        let front = entries.drop_last();
        let k = entries.last().0;
        assert(distinct_keys(front)) by {
            assert forall|a: int, b: int| 0 <= a < b < front.len() implies front[a].0
                != front[b].0 by {
                assert(entries[a].0 != entries[b].0);
            }
        }
        lemma_map_of_len(front);
        lemma_map_of_domain(front, k);
        if has_key(front, k) {
            let i = choose|i: int| 0 <= i < front.len() && #[trigger] front[i].0 == k;
            assert(entries[i].0 != entries[entries.len() - 1].0);
        }
        assert(map_of(entries).dom() =~= map_of(front).dom().insert(k));
    }
}

/// A map from text keys to values of type `V`.
#[derive(Debug)]
pub struct StrMap<V: View> {
    entries: Vec<(String, V)>,
}

impl<V: View> View for StrMap<V> {
    type V = Map<Seq<char>, V::V>;

    open spec fn view(&self) -> Map<Seq<char>, V::V> {
        map_of(self.listing())
    }
}

impl<V: View> StrMap<V> {
    /// The entries in the order in which their keys were first inserted,
    /// each key and value by its view.
    pub closed spec fn listing(&self) -> Seq<(Seq<char>, V::V)> {
        self.entries@.map_values(|e: (String, V)| (e.0@, e.1@))
    }

    #[verifier::type_invariant]
    spec fn keys_are_distinct(&self) -> bool {
        distinct_keys(self.listing())
    }

    /// The empty map.
    pub fn new() -> (m: Self)
        ensures
            m@ == Map::<Seq<char>, V::V>::empty(),
            m.listing().len() == 0,
    {
        let m = StrMap { entries: Vec::new() };
        assert(m.listing() =~= Seq::empty());
        m
    }

    /// The number of entries, which is the number of keys.
    pub fn len(&self) -> (n: usize)
        ensures
            n == self.listing().len(),
            n == self@.len(),
            self@.dom().finite(),
            distinct_keys(self.listing()),
    {
        proof {
            use_type_invariant(self);
            lemma_map_of_len(self.listing());
        }
        self.entries.len()
    }

    /// The key of entry `i`.
    pub fn key_at(&self, i: usize) -> (k: &String)
        requires
            i < self.listing().len(),
        ensures
            k@ == self.listing()[i as int].0,
            self@.contains_key(k@),
    {
        proof {
            use_type_invariant(self);
            lemma_map_of_entry(self.listing(), i as int);
        }
        &self.entries[i].0
    }

    /// The value of entry `i`.
    pub fn value_at(&self, i: usize) -> (v: &V)
        requires
            i < self.listing().len(),
        ensures
            v@ == self.listing()[i as int].1,
            self@.contains_key(self.listing()[i as int].0),
            self@[self.listing()[i as int].0] == v@,
    {
        proof {
            use_type_invariant(self);
            lemma_map_of_entry(self.listing(), i as int);
        }
        &self.entries[i].1
    }

    /// The position of the entry with key `key`, if there is one.
    fn position(&self, key: &String) -> (p: Option<usize>)
        ensures
            match p {
                Some(i) => i < self.listing().len() && self.listing()[i as int].0 == key@,
                None => !has_key(self.listing(), key@),
            },
    {
        let mut i: usize = 0;
        while i < self.entries.len()
            invariant
                i <= self.entries.len(),
                forall|j: int| 0 <= j < i ==> (#[trigger] self.listing()[j]).0 != key@,
            decreases self.entries.len() - i,
        {
            if self.entries[i].0 == *key {
                return Some(i);
            }
            i += 1;
        }
        None
    }

    /// The value under `key`, if the map holds one.
    pub fn get(&self, key: &str) -> (found: Option<&V>)
        ensures
            match found {
                Some(v) => self@.contains_key(key@) && self@[key@] == v@,
                None => !self@.contains_key(key@),
            },
    {
        let owned = key.to_owned();
        proof {
            use_type_invariant(self);
            lemma_map_of_domain(self.listing(), key@);
        }
        match self.position(&owned) {
            Some(i) => {
                proof {
                    lemma_map_of_entry(self.listing(), i as int);
                }
                Some(&self.entries[i].1)
            },
            None => None,
        }
    }

    /// Whether the map holds a value under `key`.
    pub fn contains_key(&self, key: &str) -> (b: bool)
        ensures
            b == self@.contains_key(key@),
    {
        self.get(key).is_some()
    }

    /// Puts `value` under `key`, replacing the value that was there.
    pub fn insert(&mut self, key: String, value: V)
        ensures
            final(self)@ == old(self)@.insert(key@, value@),
    {
        proof {
            use_type_invariant(&*self);
            lemma_map_of_domain(self.listing(), key@);
        }
        let ghost before = self.listing();
        let found = self.position(&key);
        let mut taken = StrMap::new();
        std::mem::swap(self, &mut taken);
        let mut entries = taken.entries;
        match found {
            Some(i) => {
                proof {
                    lemma_map_of_replace(before, i as int, value@);
                }
                entries.set(i, (key, value));
                assert(entries@.map_values(|e: (String, V)| (e.0@, e.1@)) =~= before.update(
                    i as int,
                    (key@, value@),
                ));
                *self = StrMap { entries };
            },
            None => {
                entries.push((key, value));
                assert(entries@.map_values(|e: (String, V)| (e.0@, e.1@)) =~= before.push(
                    (key@, value@),
                ));
                assert(before.push((key@, value@)).drop_last() =~= before);
                *self = StrMap { entries };
            },
        }
    }
}

} // verus!
