//! The contract's instance storage: a map from keys to stored values.

use vstd::prelude::*;

use crate::types::{DataKey, StoredValue};

verus! {

/// Instance storage, held as a list of entries in which no key occurs twice.
pub struct InstanceStorage {
    entries: Vec<(DataKey, StoredValue)>,
}

/// `i` is an index of `entries` whose key is `key`.
pub open spec fn entry_at(entries: Seq<(DataKey, StoredValue)>, i: int, key: DataKey) -> bool {
    0 <= i < entries.len() && entries[i].0 == key
}

/// No key occurs twice among `entries`.
pub open spec fn keys_distinct(entries: Seq<(DataKey, StoredValue)>) -> bool {
    forall|i: int, j: int|
        0 <= i < entries.len() && 0 <= j < entries.len() && i != j ==> #[trigger] entries[i].0
            != #[trigger] entries[j].0
}

/// The map that `entries` stand for.
pub open spec fn entries_map(entries: Seq<(DataKey, StoredValue)>) -> Map<DataKey, StoredValue> {
    Map::new(
        |k: DataKey| exists|i: int| entry_at(entries, i, k),
        |k: DataKey| entries[choose|i: int| entry_at(entries, i, k)].1,
    )
}

/// Where the keys are distinct, the entry at `i` is what the map holds for its key.
proof fn lemma_entry_in_map(entries: Seq<(DataKey, StoredValue)>, i: int)
    requires
        keys_distinct(entries),
        0 <= i < entries.len(),
    ensures
        entries_map(entries).contains_key(entries[i].0),
        entries_map(entries)[entries[i].0] == entries[i].1,
{
    let k = entries[i].0;
    assert(entry_at(entries, i, k));
    let j = choose|j: int| entry_at(entries, j, k);
    assert(entry_at(entries, j, k));
    assert(j == i);
}

impl View for InstanceStorage {
    type V = Map<DataKey, StoredValue>;

    closed spec fn view(&self) -> Map<DataKey, StoredValue> {
        entries_map(self.entries@)
    }
}

impl InstanceStorage {
    #[verifier::type_invariant]
    spec fn keys_are_distinct(self) -> bool {
        keys_distinct(self.entries@)
    }

    /// Empty storage, as a contract has when it is first deployed.
    pub fn new() -> (s: InstanceStorage)
        ensures
            s@ == Map::<DataKey, StoredValue>::empty(),
    {
        let s = InstanceStorage { entries: Vec::new() };
        assert(s@ =~= Map::<DataKey, StoredValue>::empty());
        s
    }

    /// The index of the entry for `key`, if there is one.
    fn find(&self, key: &DataKey) -> (r: Option<usize>)
        ensures
            match r {
                Some(i) => entry_at(self.entries@, i as int, *key),
                None => forall|i: int| !entry_at(self.entries@, i, *key),
            },
    {
        let mut i: usize = 0;
        while i < self.entries.len()
            invariant
                i <= self.entries.len(),
                forall|j: int| 0 <= j < i ==> !entry_at(self.entries@, j, *key),
            decreases self.entries.len() - i,
        {
            if self.entries[i].0 == *key {
                return Some(i);
            }
            i = i + 1;
        }
        None
    }

    /// Whether a value is stored under `key`.
    pub fn has(&self, key: &DataKey) -> (r: bool)
        ensures
            r == self@.contains_key(*key),
    {
        proof {
            use_type_invariant(self);
        }
        match self.find(key) {
            Some(i) => {
                proof {
                    lemma_entry_in_map(self.entries@, i as int);
                }
                true
            },
            None => false,
        }
    }

    /// The value stored under `key`, if any.
    pub fn get(&self, key: &DataKey) -> (r: Option<StoredValue>)
        ensures
            r == self@.get(*key),
    {
        proof {
            use_type_invariant(self);
        }
        match self.find(key) {
            Some(i) => {
                proof {
                    lemma_entry_in_map(self.entries@, i as int);
                }
                Some(self.entries[i].1)
            },
            None => None,
        }
    }

    /// Stores `value` under `key`, replacing what was stored there.
    pub fn set(&mut self, key: DataKey, value: StoredValue)
        ensures
            final(self)@ == old(self)@.insert(key, value),
    {
        proof {
            use_type_invariant(&*self);
        }
        let ghost old_entries = self.entries@;
        let found = self.find(&key);
        let mut entries: Vec<(DataKey, StoredValue)> = Vec::new();
        std::mem::swap(&mut entries, &mut self.entries);
        match found {
            Some(i) => {
                entries.set(i, (key, value));
                proof {
                    Self::lemma_replace_view(old_entries, i as int, key, value);
                }
            },
            None => {
                entries.push((key, value));
                proof {
                    Self::lemma_push_view(old_entries, key, value);
                }
            },
        }
        self.entries = entries;
    }

    proof fn lemma_replace_view(
        old_entries: Seq<(DataKey, StoredValue)>,
        i: int,
        key: DataKey,
        value: StoredValue,
    )
        requires
            keys_distinct(old_entries),
            entry_at(old_entries, i, key),
        ensures
            keys_distinct(old_entries.update(i, (key, value))),
            entries_map(old_entries.update(i, (key, value))) == entries_map(old_entries).insert(
                key,
                value,
            ),
    {
        let new_entries = old_entries.update(i, (key, value));
        assert forall|a: int, b: int|
            0 <= a < new_entries.len() && 0 <= b < new_entries.len() && a
                != b implies #[trigger] new_entries[a].0 != #[trigger] new_entries[b].0 by {
            assert(old_entries[a].0 == new_entries[a].0);
            assert(old_entries[b].0 == new_entries[b].0);
        }
        let m_old = entries_map(old_entries);
        let m_new = entries_map(new_entries);
        assert forall|k: DataKey| #[trigger] m_new.contains_key(k) == m_old.insert(key, value).contains_key(k) by {
            if m_new.contains_key(k) {
                let j = choose|j: int| entry_at(new_entries, j, k);
                assert(entry_at(old_entries, j, k));
            }
            if m_old.contains_key(k) {
                let j = choose|j: int| entry_at(old_entries, j, k);
                assert(entry_at(new_entries, j, k));
            }
            if k == key {
                assert(entry_at(new_entries, i, k));
            }
        }
        assert forall|k: DataKey| #[trigger] m_new.contains_key(k) implies m_new[k] == m_old.insert(
            key,
            value,
        )[k] by {
            let j = choose|j: int| entry_at(new_entries, j, k);
            assert(entry_at(new_entries, j, k));
            lemma_entry_in_map(new_entries, j);
            if k != key {
                assert(j != i);
                assert(entry_at(old_entries, j, k));
                lemma_entry_in_map(old_entries, j);
            } else {
                assert(j == i);
            }
        }
        assert(m_new =~= m_old.insert(key, value));
    }

    proof fn lemma_push_view(
        old_entries: Seq<(DataKey, StoredValue)>,
        key: DataKey,
        value: StoredValue,
    )
        requires
            keys_distinct(old_entries),
            forall|i: int| !entry_at(old_entries, i, key),
        ensures
            keys_distinct(old_entries.push((key, value))),
            entries_map(old_entries.push((key, value))) == entries_map(old_entries).insert(
                key,
                value,
            ),
    {
        let new_entries = old_entries.push((key, value));
        let n = old_entries.len() as int;
        assert forall|a: int, b: int|
            0 <= a < new_entries.len() && 0 <= b < new_entries.len() && a
                != b implies #[trigger] new_entries[a].0 != #[trigger] new_entries[b].0 by {
            if a == n {
                assert(!entry_at(old_entries, b, key));
            } else if b == n {
                assert(!entry_at(old_entries, a, key));
            } else {
                assert(old_entries[a].0 == new_entries[a].0);
                assert(old_entries[b].0 == new_entries[b].0);
            }
        }
        let m_old = entries_map(old_entries);
        let m_new = entries_map(new_entries);
        assert forall|k: DataKey| #[trigger] m_new.contains_key(k) == m_old.insert(key, value).contains_key(k) by {
            if m_new.contains_key(k) {
                let j = choose|j: int| entry_at(new_entries, j, k);
                if j < n {
                    assert(entry_at(old_entries, j, k));
                }
            }
            if m_old.contains_key(k) {
                let j = choose|j: int| entry_at(old_entries, j, k);
                assert(entry_at(new_entries, j, k));
            }
            if k == key {
                assert(entry_at(new_entries, n, k));
            }
        }
        assert forall|k: DataKey| #[trigger] m_new.contains_key(k) implies m_new[k] == m_old.insert(
            key,
            value,
        )[k] by {
            let j = choose|j: int| entry_at(new_entries, j, k);
            assert(entry_at(new_entries, j, k));
            lemma_entry_in_map(new_entries, j);
            if k != key {
                assert(j != n);
                assert(entry_at(old_entries, j, k));
                lemma_entry_in_map(old_entries, j);
            }
        }
        assert(m_new =~= m_old.insert(key, value));
    }
}

} // verus!
