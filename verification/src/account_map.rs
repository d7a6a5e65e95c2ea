//! A keyed store from account addresses to values, in which no address occurs
//! twice.

use vstd::prelude::*;
use crate::types::AccountAddress;

verus! {

/// One account with what is stored for it.
#[derive(Debug, Clone, PartialEq, Eq)]
pub struct Entry<V> {
    pub key: AccountAddress,
    pub value: V,
}

/// The map that a list of entries stands for. Where an address occurs more
/// than once, the last occurrence counts.
pub open spec fn entries_map<V>(entries: Seq<Entry<V>>) -> Map<AccountAddress, V>
    decreases entries.len(),
{
    if entries.len() == 0 {
        Map::empty()
    } else {
        entries_map(entries.drop_last()).insert(entries.last().key, entries.last().value)
    }
}

/// No address occurs twice in the list.
pub open spec fn distinct_keys<V>(entries: Seq<Entry<V>>) -> bool {
    forall|i: int, j: int|
        0 <= i < j < entries.len() ==> (#[trigger] entries[i]).key != (#[trigger] entries[j]).key
}

/// The domain of the map of a list is finite.
pub proof fn lemma_entries_map_finite<V>(entries: Seq<Entry<V>>)
    ensures
        entries_map(entries).dom().finite(),
    decreases entries.len(),
{
    if entries.len() > 0 {
        lemma_entries_map_finite(entries.drop_last());
    }
}

/// An address is in the map exactly if it occurs in the list.
pub proof fn lemma_entries_map_keys<V>(entries: Seq<Entry<V>>, key: AccountAddress)
    ensures
        entries_map(entries).contains_key(key) <==> exists|i: int|
            0 <= i < entries.len() && (#[trigger] entries[i]).key == key,
    decreases entries.len(),
{
    if entries.len() > 0 {
        let front = entries.drop_last();
        lemma_entries_map_keys(front, key);
        if entries_map(entries).contains_key(key) {
            if entries.last().key == key {
                assert(entries[entries.len() - 1].key == key);
            } else {
                let i = choose|i: int| 0 <= i < front.len() && (#[trigger] front[i]).key == key;
                assert(entries[i].key == key);
            }
        }
        if exists|i: int| 0 <= i < entries.len() && (#[trigger] entries[i]).key == key {
            let i = choose|i: int| 0 <= i < entries.len() && (#[trigger] entries[i]).key == key;
            if i < entries.len() - 1 {
                assert(front[i].key == key);
            }
        }
    }
}

/// In a list without repeated addresses, each entry is what the map holds for
/// its address.
pub proof fn lemma_entries_map_value<V>(entries: Seq<Entry<V>>, i: int)
    requires
        distinct_keys(entries),
        0 <= i < entries.len(),
    ensures
        entries_map(entries).contains_key(entries[i].key),
        entries_map(entries)[entries[i].key] == entries[i].value,
    decreases entries.len(),
{
    let front = entries.drop_last();
    if i < entries.len() - 1 {
        assert(distinct_keys(front)) by {
            assert forall|a: int, b: int| 0 <= a < b < front.len() implies (#[trigger] front[a]).key
                != (#[trigger] front[b]).key by {
                assert(entries[a].key != entries[b].key);
            }
        }
        lemma_entries_map_value(front, i);
        assert(entries[i].key != entries[entries.len() - 1].key);
        assert(front[i] == entries[i]);
    }
}

/// A list without repeated addresses has as many entries as its map has keys.
pub proof fn lemma_entries_map_len<V>(entries: Seq<Entry<V>>)
    requires
        distinct_keys(entries),
    ensures
        entries_map(entries).dom().finite(),
        entries_map(entries).dom().len() == entries.len(),
    decreases entries.len(),
{
    lemma_entries_map_finite(entries);
    if entries.len() > 0 {
        let front = entries.drop_last();
        assert(distinct_keys(front)) by {
            assert forall|a: int, b: int| 0 <= a < b < front.len() implies (#[trigger] front[a]).key
                != (#[trigger] front[b]).key by {
                assert(entries[a].key != entries[b].key);
            }
        }
        lemma_entries_map_len(front);
        lemma_entries_map_keys(front, entries.last().key);
        if entries_map(front).contains_key(entries.last().key) {
            let i = choose|i: int|
                0 <= i < front.len() && (#[trigger] front[i]).key == entries.last().key;
            assert(entries[i].key != entries[entries.len() - 1].key);
            assert(front[i] == entries[i]);
        }
    }
}

/// A store keyed by account address.
pub struct AccountMap<V> {
    entries: Vec<Entry<V>>,
}

impl<V> View for AccountMap<V> {
    type V = Map<AccountAddress, V>;

    closed spec fn view(&self) -> Map<AccountAddress, V> {
        entries_map(self.entries@)
    }
}

impl<V> AccountMap<V> {
    /// No address occurs twice in the store.
    pub closed spec fn wf(&self) -> bool {
        distinct_keys(self.entries@)
    }

    /// The store always holds finitely many addresses.
    pub proof fn lemma_finite(&self)
        ensures
            self@.dom().finite(),
    {
        lemma_entries_map_finite(self.entries@);
    }

    /// The store holds no more addresses than a machine word counts.
    pub proof fn lemma_len_bounded(&self)
        requires
            self.wf(),
        ensures
            self@.dom().finite(),
            self@.dom().len() <= usize::MAX,
    {
        lemma_entries_map_len(self.entries@);
        assert(self.entries@.len() == self.entries.len());
    }

    /// An empty store.
    pub fn new() -> (m: Self)
        ensures
            m.wf(),
            m@ == Map::<AccountAddress, V>::empty(),
    {
        AccountMap { entries: Vec::new() }
    }

    /// How many addresses the store holds.
    pub fn len(&self) -> (n: usize)
        requires
            self.wf(),
        ensures
            self@.dom().finite(),
            n == self@.dom().len(),
    {
        proof {
            lemma_entries_map_len(self.entries@);
        }
        self.entries.len()
    }

    fn position(&self, key: &AccountAddress) -> (r: Option<usize>)
        ensures
            match r {
                Some(i) => i < self.entries@.len() && self.entries@[i as int].key == *key,
                None => !self@.contains_key(*key),
            },
    {
        let mut i: usize = 0;
        while i < self.entries.len()
            invariant
                i <= self.entries@.len(),
                forall|j: int| 0 <= j < i ==> (#[trigger] self.entries@[j]).key != *key,
            decreases self.entries@.len() - i,
        {
            if self.entries[i].key.same(key) {
                return Some(i);
            }
            i += 1;
        }
        proof {
            lemma_entries_map_keys(self.entries@, *key);
        }
        None
    }

    /// Whether the store holds something for the address.
    pub fn contains(&self, key: &AccountAddress) -> (r: bool)
        requires
            self.wf(),
        ensures
            r == self@.contains_key(*key),
    {
        match self.position(key) {
            Some(i) => {
                proof {
                    lemma_entries_map_value(self.entries@, i as int);
                }
                true
            },
            None => false,
        }
    }

    /// What the store holds for the address.
    pub fn get(&self, key: &AccountAddress) -> (r: Option<&V>)
        requires
            self.wf(),
        ensures
            match r {
                Some(v) => self@.contains_key(*key) && *v == self@[*key],
                None => !self@.contains_key(*key),
            },
    {
        match self.position(key) {
            Some(i) => {
                proof {
                    lemma_entries_map_value(self.entries@, i as int);
                }
                Some(&self.entries[i].value)
            },
            None => None,
        }
    }

    /// Stores `value` for the address, in place of what was there.
    pub fn insert(&mut self, key: AccountAddress, value: V)
        requires
            old(self).wf(),
        ensures
            final(self).wf(),
            final(self)@ == old(self)@.insert(key, value),
    {
        let found = self.position(&key);
        let ghost before = self.entries@;
        match found {
            Some(i) => {
                self.entries.set(i, Entry { key, value });
                proof {
                    let after = self.entries@;
                    assert(distinct_keys(after)) by {
                        assert forall|a: int, b: int| 0 <= a < b < after.len() implies (
                        #[trigger] after[a]).key != (#[trigger] after[b]).key by {
                            assert(before[a].key != before[b].key);
                        }
                    }
                    assert forall|k: AccountAddress|
                        entries_map(after).contains_key(k) == entries_map(before).insert(
                            key,
                            value,
                        ).contains_key(k) by {
                        lemma_entries_map_keys(after, k);
                        lemma_entries_map_keys(before, k);
                        if exists|j: int| 0 <= j < after.len() && (#[trigger] after[j]).key == k {
                            let j = choose|j: int|
                                0 <= j < after.len() && (#[trigger] after[j]).key == k;
                            assert(before[j].key == k);
                        }
                        if exists|j: int| 0 <= j < before.len() && (#[trigger] before[j]).key == k {
                            let j = choose|j: int|
                                0 <= j < before.len() && (#[trigger] before[j]).key == k;
                            assert(after[j].key == k);
                        }
                        if k == key {
                            assert(after[i as int].key == k);
                        }
                    }
                    assert forall|k: AccountAddress| entries_map(after).contains_key(k) implies (
                    #[trigger] entries_map(after)[k]) == entries_map(before).insert(
                        key,
                        value,
                    )[k] by {
                        lemma_entries_map_keys(after, k);
                        let j = choose|j: int|
                            0 <= j < after.len() && (#[trigger] after[j]).key == k;
                        lemma_entries_map_value(after, j);
                        if j != i {
                            assert(before[j].key == k);
                            lemma_entries_map_value(before, j);
                        } else {
                            assert(k == key);
                        }
                    }
                    assert(entries_map(after) =~= entries_map(before).insert(key, value));
                }
            },
            None => {
                self.entries.push(Entry { key, value });
                proof {
                    let after = self.entries@;
                    assert(after.drop_last() =~= before);
                    assert(distinct_keys(after)) by {
                        assert forall|a: int, b: int| 0 <= a < b < after.len() implies (
                        #[trigger] after[a]).key != (#[trigger] after[b]).key by {
                            lemma_entries_map_keys(before, key);
                            if b < before.len() {
                                assert(before[a].key != before[b].key);
                            } else {
                                assert(before[a].key != key);
                            }
                        }
                    }
                }
            },
        }
    }

    /// Takes out what the store holds for the address, if anything.
    pub fn remove(&mut self, key: &AccountAddress) -> (r: Option<V>)
        requires
            old(self).wf(),
        ensures
            final(self).wf(),
            final(self)@ == old(self)@.remove(*key),
            match r {
                Some(v) => old(self)@.contains_key(*key) && v == old(self)@[*key],
                None => !old(self)@.contains_key(*key),
            },
    {
        let found = self.position(key);
        let ghost before = self.entries@;
        match found {
            Some(i) => {
                proof {
                    lemma_entries_map_value(before, i as int);
                }
                let taken = self.entries.swap_remove(i);
                proof {
                    let after = self.entries@;
                    let last = before.len() - 1;
                    assert forall|a: int| 0 <= a < after.len() implies (#[trigger] after[a])
                        == before[if a == i { last } else { a }] by {}
                    assert(distinct_keys(after)) by {
                        assert forall|a: int, b: int| 0 <= a < b < after.len() implies (
                        #[trigger] after[a]).key != (#[trigger] after[b]).key by {
                            let a0 = if a == i { last } else { a };
                            let b0 = if b == i { last } else { b };
                            assert(after[a] == before[a0]);
                            assert(after[b] == before[b0]);
                            if a0 < b0 {
                                assert(before[a0].key != before[b0].key);
                            } else {
                                assert(before[b0].key != before[a0].key);
                            }
                        }
                    }
                    assert forall|k: AccountAddress|
                        entries_map(after).contains_key(k) == entries_map(before).remove(
                            *key,
                        ).contains_key(k) by {
                        lemma_entries_map_keys(after, k);
                        lemma_entries_map_keys(before, k);
                        if exists|j: int| 0 <= j < after.len() && (#[trigger] after[j]).key == k {
                            let j = choose|j: int|
                                0 <= j < after.len() && (#[trigger] after[j]).key == k;
                            let j0 = if j == i { last } else { j };
                            assert(after[j] == before[j0]);
                            assert(before[j0].key == k);
                            if j0 < i {
                                assert(before[j0].key != before[i as int].key);
                            } else if i < j0 {
                                assert(before[i as int].key != before[j0].key);
                            }
                        }
                        if k != *key && exists|j: int|
                            0 <= j < before.len() && (#[trigger] before[j]).key == k {
                            let j = choose|j: int|
                                0 <= j < before.len() && (#[trigger] before[j]).key == k;
                            let j1 = if j == last { i as int } else { j };
                            assert(after[j1] == before[j]);
                            assert(after[j1].key == k);
                        }
                    }
                    assert forall|k: AccountAddress| entries_map(after).contains_key(k) implies (
                    #[trigger] entries_map(after)[k]) == entries_map(before).remove(*key)[k] by {
                        lemma_entries_map_keys(after, k);
                        let j = choose|j: int|
                            0 <= j < after.len() && (#[trigger] after[j]).key == k;
                        lemma_entries_map_value(after, j);
                        let j0 = if j == i { last } else { j };
                        assert(after[j] == before[j0]);
                        lemma_entries_map_value(before, j0);
                    }
                    assert(entries_map(after) =~= entries_map(before).remove(*key));
                }
                Some(taken.value)
            },
            None => {
                assert(before =~= self.entries@);
                assert(entries_map(before).remove(*key) =~= entries_map(before));
                None
            },
        }
    }

    /// Makes a store of a list of entries, if no address occurs twice in it.
    pub fn from_entries(entries: Vec<Entry<V>>) -> (r: Option<Self>)
        ensures
            match r {
                Some(m) => m.wf() && distinct_keys(entries@) && m@ == entries_map(entries@),
                None => !distinct_keys(entries@),
            },
    {
        let mut i: usize = 0;
        while i < entries.len()
            invariant
                i <= entries@.len(),
                forall|a: int, b: int|
                    0 <= a < b < i ==> (#[trigger] entries@[a]).key != (#[trigger] entries@[b]).key,
            decreases entries@.len() - i,
        {
            let mut j: usize = 0;
            while j < i
                invariant
                    j <= i,
                    i < entries@.len(),
                    forall|a: int|
                        0 <= a < j ==> (#[trigger] entries@[a]).key != entries@[i as int].key,
                decreases i - j,
            {
                if entries[j].key.same(&entries[i].key) {
                    assert(entries@[j as int].key == entries@[i as int].key);
                    return None;
                }
                j += 1;
            }
            i += 1;
        }
        Some(AccountMap { entries })
    }

    /// Makes a store of a list of entries in which no address occurs twice.
    pub fn from_distinct_entries(entries: Vec<Entry<V>>) -> (m: Self)
        requires
            distinct_keys(entries@),
        ensures
            m.wf(),
            m@ == entries_map(entries@),
    {
        AccountMap { entries }
    }

    /// The entries of the store, in no order that callers can rely on.
    pub fn entries(&self) -> (list: &Vec<Entry<V>>)
        requires
            self.wf(),
        ensures
            distinct_keys(list@),
            entries_map(list@) == self@,
    {
        &self.entries
    }

    /// Takes the store apart into its entries.
    pub fn into_entries(self) -> (list: Vec<Entry<V>>)
        requires
            self.wf(),
        ensures
            distinct_keys(list@),
            entries_map(list@) == self@,
    {
        self.entries
    }
}

} // verus!
