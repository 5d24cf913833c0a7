//! Lookup tables from reference identifiers to payloads.

use vstd::prelude::*;

verus! {

/// A lookup table keyed by reference identifier.
///
/// The table is a finite map from identifiers to payloads; inserting under
/// an identifier that is already present replaces the earlier payload.
#[derive(Debug, Clone, PartialEq, Eq, Hash)]
pub struct SideTable<T> {
    entries: Vec<(String, T)>,
}

/// The payload most recently stored under `key`, if any.
pub open spec fn latest<T>(entries: Seq<(String, T)>, key: Seq<char>) -> Option<T>
    decreases entries.len(),
{
    if entries.len() == 0 {
        None
    } else if entries.last().0@ == key {
        Some(entries.last().1)
    } else {
        latest(entries.drop_last(), key)
    }
}

impl<T> View for SideTable<T> {
    type V = Map<Seq<char>, T>;

    closed spec fn view(&self) -> Map<Seq<char>, T> {
        Map::new(
            |k: Seq<char>| latest(self.entries@, k) is Some,
            |k: Seq<char>| latest(self.entries@, k).unwrap(),
        )
    }
}

impl<T> SideTable<T> {
    /// What the table holds under `key`.
    pub open spec fn spec_get(&self, key: Seq<char>) -> Option<T> {
        if self@.contains_key(key) {
            Some(self@[key])
        } else {
            None
        }
    }

    /// An empty table.
    pub fn new() -> (table: Self)
        ensures
            table@ == Map::<Seq<char>, T>::empty(),
    {
        let table = SideTable { entries: Vec::new() };
        assert(table@ =~= Map::<Seq<char>, T>::empty());
        table
    }

    /// Stores `value` under `key`, replacing what was there.
    pub fn insert(&mut self, key: String, value: T)
        ensures
            final(self)@ == old(self)@.insert(key@, value),
    {
        let ghost before = self.entries@;
        self.entries.push((key, value));
        proof {
            assert(self.entries@.drop_last() =~= before);
            assert(self@ =~= old(self)@.insert(key@, value));
        }
    }

    /// Looks `key` up.
    pub fn get(&self, key: &String) -> (found: Option<&T>)
        ensures
            match found {
                Some(value) => self.spec_get(key@) == Some(*value),
                None => self.spec_get(key@) is None,
            },
    {
        let mut i: usize = self.entries.len();
        proof {
            assert(self.entries@.take(i as int) =~= self.entries@);
        }
        while i > 0
            invariant
                i <= self.entries@.len(),
                latest(self.entries@, key@) == latest(self.entries@.take(i as int), key@),
            decreases i,
        {
            i = i - 1;
            proof {
                assert(self.entries@.take(i + 1).drop_last() =~= self.entries@.take(i as int));
            }
            if self.entries[i].0 == *key {
                return Some(&self.entries[i].1);
            }
        }
        proof {
            assert(self.entries@.take(0).len() == 0);
        }
        None
    }
}

} // verus!
