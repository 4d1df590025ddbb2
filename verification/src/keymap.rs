//! A small string-keyed association map, backed by a vector of entries with
//! pairwise-distinct keys and viewed as a `Map` from key characters to value
//! views. Insertion is last-write-wins: inserting an existing key replaces
//! its value in place.

use vstd::prelude::*;

verus! {

/// The map denoted by a sequence of entries, folded in order: a later entry
/// with the same key overrides an earlier one.
pub open spec fn entries_map<V: View>(s: Seq<(String, V)>) -> Map<Seq<char>, V::V>
    decreases s.len(),
{
    if s.len() == 0 {
        Map::empty()
    } else {
        entries_map(s.drop_last()).insert(s.last().0@, s.last().1@)
    }
}

/// Pairwise-distinct keys.
pub open spec fn keys_distinct<V>(s: Seq<(String, V)>) -> bool {
    forall|i: int, j: int| 0 <= i < j < s.len() ==> s[i].0@ != s[j].0@
}

/// The key of any entry is in the domain of the denoted map.
proof fn lemma_entries_map_contains_key<V: View>(s: Seq<(String, V)>, i: int)
    requires
        0 <= i < s.len(),
    ensures
        entries_map(s).dom().contains(s[i].0@),
    decreases s.len(),
{
    if i < s.len() - 1 {
        lemma_entries_map_contains_key(s.drop_last(), i);
    }
}

/// A key that occurs in no entry is outside the domain of the denoted map.
proof fn lemma_entries_map_fresh<V: View>(s: Seq<(String, V)>, k: Seq<char>)
    requires
        forall|i: int| 0 <= i < s.len() ==> s[i].0@ != k,
    ensures
        !entries_map(s).dom().contains(k),
    decreases s.len(),
{
    if s.len() > 0 {
        lemma_entries_map_fresh(s.drop_last(), k);
    }
}

/// With distinct keys, each entry's key maps to that entry's value.
proof fn lemma_entries_map_index<V: View>(s: Seq<(String, V)>, i: int)
    requires
        keys_distinct(s),
        0 <= i < s.len(),
    ensures
        entries_map(s).dom().contains(s[i].0@),
        entries_map(s)[s[i].0@] == s[i].1@,
    decreases s.len(),
{
    lemma_entries_map_contains_key(s, i);
    if i < s.len() - 1 {
        lemma_entries_map_index(s.drop_last(), i);
    }
}

/// Appending an entry inserts its key-value pair into the denoted map.
proof fn lemma_entries_map_push<V: View>(s: Seq<(String, V)>, e: (String, V))
    ensures
        entries_map(s.push(e)) == entries_map(s).insert(e.0@, e.1@),
{
    assert(s.push(e).drop_last() =~= s);
    assert(s.push(e).last() == e);
}

/// With distinct keys, replacing the entry that holds a key updates the
/// denoted map at that key, and the keys stay distinct.
proof fn lemma_entries_map_update<V: View>(s: Seq<(String, V)>, i: int, e: (String, V))
    requires
        keys_distinct(s),
        0 <= i < s.len(),
        e.0@ == s[i].0@,
    ensures
        entries_map(s.update(i, e)) == entries_map(s).insert(e.0@, e.1@),
        keys_distinct(s.update(i, e)),
    decreases s.len(),
{
    let t = s.update(i, e);
    if i == s.len() - 1 {
        assert(t.drop_last() =~= s.drop_last());
        assert(entries_map(t) =~= entries_map(s).insert(e.0@, e.1@));
    } else {
        assert(t.drop_last() =~= s.drop_last().update(i, e));
        lemma_entries_map_update(s.drop_last(), i, e);
        assert(entries_map(t) =~= entries_map(s).insert(e.0@, e.1@));
    }
}

/// With distinct keys, the denoted map has exactly one domain element per
/// entry.
proof fn lemma_entries_map_len<V: View>(s: Seq<(String, V)>)
    requires
        keys_distinct(s),
    ensures
        entries_map(s).dom().finite(),
        entries_map(s).dom().len() == s.len(),
    decreases s.len(),
{
    if s.len() > 0 {
        lemma_entries_map_len(s.drop_last());
        lemma_entries_map_fresh(s.drop_last(), s.last().0@);
    }
}

/// A key-to-value map kept as a vector of entries with distinct keys.
#[derive(Clone, PartialEq, Eq, Debug)]
pub struct KeyMap<V> {
    entries: Vec<(String, V)>,
}

impl<V: View> View for KeyMap<V> {
    type V = Map<Seq<char>, V::V>;

    closed spec fn view(&self) -> Map<Seq<char>, V::V> {
        entries_map(self.entries@)
    }
}

impl<V: View> KeyMap<V> {
    /// Well-formedness: the stored entries have pairwise-distinct keys.
    /// Constructors establish it and `insert` preserves it.
    pub closed spec fn wf(&self) -> bool {
        keys_distinct(self.entries@)
    }

    /// Number of entries stored.
    pub closed spec fn spec_entry_count(&self) -> nat {
        self.entries@.len()
    }

    /// An empty map.
    pub fn new() -> (m: KeyMap<V>)
        ensures
            m@ == Map::<Seq<char>, V::V>::empty(),
            m.wf(),
            m.spec_entry_count() == 0,
    {
        KeyMap { entries: Vec::new() }
    }

    /// The index of the entry holding a key, if any.
    fn position_of(&self, k: &String) -> (r: Option<usize>)
        ensures
            match r {
                Some(i) => i < self.entries@.len() && self.entries@[i as int].0@ == k@,
                None => forall|j: int| 0 <= j < self.entries@.len() ==> self.entries@[j].0@ != k@,
            },
    {
        let mut i: usize = 0;
        while i < self.entries.len()
            invariant
                i <= self.entries@.len(),
                forall|j: int| 0 <= j < i ==> self.entries@[j].0@ != k@,
            decreases self.entries@.len() - i,
        {
            if self.entries[i].0 == *k {
                return Some(i);
            }
            i += 1;
        }
        None
    }

    /// Insert a key-value pair: an existing key has its value replaced in
    /// place (last write wins), a fresh key is appended.
    pub fn insert(&mut self, k: String, v: V)
        requires
            old(self).wf(),
        ensures
            final(self).wf(),
            final(self)@ == old(self)@.insert(k@, v@),
            old(self)@.dom().contains(k@) ==> final(self).spec_entry_count()
                == old(self).spec_entry_count(),
            !old(self)@.dom().contains(k@) ==> final(self).spec_entry_count()
                == old(self).spec_entry_count() + 1,
    {
        match self.position_of(&k) {
            Some(i) => {
                proof {
                    lemma_entries_map_contains_key(self.entries@, i as int);
                    lemma_entries_map_update(self.entries@, i as int, (k, v));
                }
                self.entries[i] = (k, v);
            },
            None => {
                proof {
                    lemma_entries_map_fresh(self.entries@, k@);
                    lemma_entries_map_push(self.entries@, (k, v));
                }
                self.entries.push((k, v));
            },
        }
    }

    /// Look a key up. `Some` exactly when the key is in the map's domain,
    /// and on a well-formed map the returned value is the one the map holds.
    pub fn get(&self, k: &String) -> (r: Option<&V>)
        ensures
            match r {
                Some(v) => self@.dom().contains(k@) && (self.wf() ==> v@ == self@[k@]),
                None => !self@.dom().contains(k@),
            },
    {
        match self.position_of(k) {
            Some(i) => {
                proof {
                    lemma_entries_map_contains_key(self.entries@, i as int);
                    if self.wf() {
                        lemma_entries_map_index(self.entries@, i as int);
                    }
                }
                Some(&self.entries[i].1)
            },
            None => {
                proof {
                    lemma_entries_map_fresh(self.entries@, k@);
                }
                None
            },
        }
    }

    /// Number of entries; on a well-formed map, the size of the domain.
    pub fn len(&self) -> (n: usize)
        ensures
            n == self.spec_entry_count(),
            self.wf() ==> n == self@.dom().len(),
    {
        proof {
            if self.wf() {
                lemma_entries_map_len(self.entries@);
            }
        }
        self.entries.len()
    }

    /// The entry at an index. Its key is in the map's domain, and on a
    /// well-formed map its value is the one the map holds for that key.
    pub fn entry_at(&self, i: usize) -> (e: &(String, V))
        requires
            i < self.spec_entry_count(),
        ensures
            self@.dom().contains(e.0@),
            self.wf() ==> e.1@ == self@[e.0@],
    {
        proof {
            lemma_entries_map_contains_key(self.entries@, i as int);
            if self.wf() {
                lemma_entries_map_index(self.entries@, i as int);
            }
        }
        &self.entries[i]
    }
}

} // verus!
