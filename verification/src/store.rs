//! The entity store: typed records keyed by derived addresses.
//!
//! Each component owns one store per record type.  A store is a flat list of
//! (key, record) entries with unique keys; its specification view is the
//! mathematical map from keys to records.  Together with address derivation
//! this replaces a central registry: a record's slot is computed, then looked
//! up here.

use vstd::prelude::*;

use crate::keys::AccountKey;

verus! {

/// The map that a list of entries denotes, later entries overriding earlier
/// ones (with unique keys nothing is ever overridden).
pub open spec fn entries_map<V>(s: Seq<(AccountKey, V)>) -> Map<AccountKey, V>
    decreases s.len(),
{
    if s.len() == 0 {
        Map::empty()
    } else {
        entries_map(s.drop_last()).insert(s.last().0, s.last().1)
    }
}

/// No two entries share a key.
pub open spec fn keys_unique<V>(s: Seq<(AccountKey, V)>) -> bool {
    forall|i: int, j: int| 0 <= i < j < s.len() ==> s[i].0 != s[j].0
}

/// A key is in the denoted map exactly when some entry holds it.
proof fn lemma_entries_map_dom<V>(s: Seq<(AccountKey, V)>, k: AccountKey)
    ensures
        entries_map(s).dom().contains(k) <==> exists|i: int| 0 <= i < s.len() && s[i].0 == k,
    decreases s.len(),
{
    if s.len() > 0 {
        lemma_entries_map_dom(s.drop_last(), k);
        if entries_map(s).dom().contains(k) && s.last().0 != k {
            let i = choose|i: int| 0 <= i < s.drop_last().len() && s.drop_last()[i].0 == k;
            assert(s[i].0 == k);
        }
        if exists|i: int| 0 <= i < s.len() && s[i].0 == k {
            let i = choose|i: int| 0 <= i < s.len() && s[i].0 == k;
            if i < s.len() - 1 {
                assert(s.drop_last()[i].0 == k);
            }
        }
    }
}

/// With unique keys, the denoted map sends each entry's key to its record.
proof fn lemma_entries_map_index<V>(s: Seq<(AccountKey, V)>, i: int)
    requires
        keys_unique(s),
        0 <= i < s.len(),
    ensures
        entries_map(s).dom().contains(s[i].0),
        entries_map(s)[s[i].0] == s[i].1,
    decreases s.len(),
{
    if i < s.len() - 1 {
        assert(s.drop_last()[i] == s[i]);
        lemma_entries_map_index(s.drop_last(), i);
        assert(s[i].0 != s.last().0);
    }
}

/// Replacing an entry with one holding the same key updates the denoted map
/// at that key.
proof fn lemma_entries_map_update<V>(s: Seq<(AccountKey, V)>, i: int, e: (AccountKey, V))
    requires
        keys_unique(s),
        0 <= i < s.len(),
        s[i].0 == e.0,
    ensures
        keys_unique(s.update(i, e)),
        entries_map(s.update(i, e)) == entries_map(s).insert(e.0, e.1),
    decreases s.len(),
{
    assert forall|a: int, b: int| 0 <= a < b < s.len() implies s.update(i, e)[a].0 != s.update(
        i,
        e,
    )[b].0 by {
        assert(s[a].0 != s[b].0);
    }
    if i == s.len() - 1 {
        assert(s.update(i, e).drop_last() =~= s.drop_last());
        assert(entries_map(s.update(i, e)) =~= entries_map(s).insert(e.0, e.1));
    } else {
        assert(s.update(i, e).drop_last() =~= s.drop_last().update(i, e));
        assert(s.drop_last()[i] == s[i]);
        lemma_entries_map_update(s.drop_last(), i, e);
        assert(s[i].0 != s.last().0);
        assert(entries_map(s.update(i, e)) =~= entries_map(s).insert(e.0, e.1));
    }
}

/// Deleting the entry at `i` removes its key from the denoted map.
proof fn lemma_entries_map_remove_at<V>(s: Seq<(AccountKey, V)>, i: int)
    requires
        keys_unique(s),
        0 <= i < s.len(),
    ensures
        keys_unique(s.remove(i)),
        entries_map(s.remove(i)) == entries_map(s).remove(s[i].0),
    decreases s.len(),
{
    let k = s[i].0;
    assert forall|a: int, b: int| 0 <= a < b < s.remove(i).len() implies s.remove(i)[a].0
        != s.remove(i)[b].0 by {
        let sa: int = if a < i {
            a
        } else {
            a + 1
        };
        let sb: int = if b < i {
            b
        } else {
            b + 1
        };
        assert(s.remove(i)[a] == s[sa]);
        assert(s.remove(i)[b] == s[sb]);
        assert(s[sa].0 != s[sb].0);
    }
    if i == s.len() - 1 {
        assert(s.remove(i) =~= s.drop_last());
        lemma_entries_map_dom(s.drop_last(), k);
        assert(forall|j: int| 0 <= j < s.drop_last().len() ==> s.drop_last()[j] == s[j]);
        assert(!entries_map(s.drop_last()).dom().contains(k));
        assert(entries_map(s.remove(i)) =~= entries_map(s).remove(k));
    } else {
        assert(s.remove(i).drop_last() =~= s.drop_last().remove(i));
        assert(s.remove(i).last() == s.last());
        assert forall|a: int, b: int| 0 <= a < b < s.drop_last().len() implies s.drop_last()[a].0
            != s.drop_last()[b].0 by {
            assert(s[a].0 != s[b].0);
        }
        assert(s.drop_last()[i] == s[i]);
        lemma_entries_map_remove_at(s.drop_last(), i);
        assert(k != s.last().0);
        assert(entries_map(s.remove(i)) =~= entries_map(s).remove(k));
    }
}

/// A typed record store keyed by derived addresses.
#[derive(Debug)]
pub struct EntityStore<V> {
    entries: Vec<(AccountKey, V)>,
}

impl<V> View for EntityStore<V> {
    type V = Map<AccountKey, V>;

    closed spec fn view(&self) -> Map<AccountKey, V> {
        entries_map(self.entries@)
    }
}

impl<V> EntityStore<V> {
    /// The store's internal uniqueness invariant.
    pub closed spec fn wf(self) -> bool {
        keys_unique(self.entries@)
    }

    /// An empty store.
    pub fn new() -> (s: Self)
        ensures
            s.wf(),
            s@ == Map::<AccountKey, V>::empty(),
    {
        EntityStore { entries: Vec::new() }
    }

    /// The index holding `key`, if any.
    fn find_index(&self, key: &AccountKey) -> (r: Option<usize>)
        ensures
            r matches Some(i) ==> i < self.entries@.len() && self.entries@[i as int].0 == *key,
            r is None ==> forall|j: int| 0 <= j < self.entries@.len() ==> self.entries@[j].0
                != *key,
    {
        let n: usize = self.entries.len();
        let mut i: usize = 0;
        while i < n
            invariant
                i <= n,
                n == self.entries@.len(),
                forall|j: int| 0 <= j < i ==> self.entries@[j].0 != *key,
            decreases n - i,
        {
            if self.entries[i].0 == *key {
                return Some(i);
            }
            i = i + 1;
        }
        None
    }

    /// Whether a record is stored at `key`.
    pub fn contains_key(&self, key: &AccountKey) -> (b: bool)
        requires
            self.wf(),
        ensures
            b == self@.contains_key(*key),
    {
        proof {
            lemma_entries_map_dom(self.entries@, *key);
        }
        match self.find_index(key) {
            Some(_) => true,
            None => false,
        }
    }

    /// The record stored at `key`, if any.
    pub fn get(&self, key: &AccountKey) -> (r: Option<&V>)
        requires
            self.wf(),
        ensures
            r matches Some(v) ==> self@.contains_key(*key) && *v == self@[*key],
            r is None ==> !self@.contains_key(*key),
    {
        proof {
            lemma_entries_map_dom(self.entries@, *key);
        }
        match self.find_index(key) {
            Some(i) => {
                proof {
                    lemma_entries_map_index(self.entries@, i as int);
                }
                Some(&self.entries[i].1)
            },
            None => None,
        }
    }

    /// Writes `value` at `key`, creating the record or replacing what was
    /// there.
    pub fn upsert(&mut self, key: AccountKey, value: V)
        requires
            old(self).wf(),
        ensures
            final(self).wf(),
            final(self)@ == old(self)@.insert(key, value),
    {
        match self.find_index(&key) {
            Some(i) => {
                proof {
                    lemma_entries_map_update(self.entries@, i as int, (key, value));
                }
                self.entries.set(i, (key, value));
            },
            None => {
                self.entries.push((key, value));
                proof {
                    assert(self.entries@.drop_last() =~= old(self).entries@);
                    assert forall|a: int, b: int|
                        0 <= a < b < self.entries@.len() implies self.entries@[a].0
                        != self.entries@[b].0 by {
                        if b < self.entries@.len() - 1 {
                            assert(old(self).entries@[a].0 != old(self).entries@[b].0);
                        }
                    }
                }
            },
        }
    }

    /// Takes the record at `key` out of the store, if any.
    pub fn take(&mut self, key: &AccountKey) -> (r: Option<V>)
        requires
            old(self).wf(),
        ensures
            final(self).wf(),
            final(self)@ == old(self)@.remove(*key),
            r matches Some(v) ==> old(self)@.contains_key(*key) && v == old(self)@[*key],
            r is None ==> !old(self)@.contains_key(*key) && *final(self) == *old(self),
    {
        proof {
            lemma_entries_map_dom(self.entries@, *key);
        }
        match self.find_index(key) {
            Some(i) => {
                proof {
                    lemma_entries_map_index(self.entries@, i as int);
                    lemma_entries_map_remove_at(self.entries@, i as int);
                }
                Some(self.entries.remove(i).1)
            },
            None => {
                proof {
                    assert(self@ =~= self@.remove(*key));
                }
                None
            },
        }
    }

    /// Deletes the record at `key`, if any.
    pub fn remove(&mut self, key: &AccountKey)
        requires
            old(self).wf(),
        ensures
            final(self).wf(),
            final(self)@ == old(self)@.remove(*key),
    {
        let _ = self.take(key);
    }
}

} // verus!
