//! The authoritative container.

use crate::model::{keyed_by_id, lookup, put, put_outcome, Outcome, Table};
use crate::movie::{view_of, Movie};
use vstd::hash_map::StringHashMap;
use vstd::prelude::*;

verus! {

/// The source of truth: at most one record per identifier, never removed.
/// Every record is kept under its own identifier, since [`Store::put`] is
/// the only way in.
pub struct Store {
    entries: StringHashMap<Movie>,
}

impl View for Store {
    type V = Table;

    closed spec fn view(&self) -> Table {
        Map::new(
            |id: Seq<char>| self.entries@.contains_key(id),
            |id: Seq<char>| self.entries@[id]@,
        )
    }
}

impl Store {
    /// An empty store.
    pub fn new() -> (store: Store)
        ensures
            store@ == Table::empty(),
    {
        Store { entries: StringHashMap::new() }
    }

    /// How many records the store keeps.
    pub fn len(&self) -> (count: usize)
        ensures
            count == self@.dom().len(),
    {
        assert(self@.dom() =~= self.entries@.dom());
        self.entries.len()
    }

    /// A copy of the record kept under `id`, or `None` if there is none.
    /// The store is left as it is.
    pub fn get(&self, id: &str) -> (found: Option<Movie>)
        ensures
            view_of(found) == lookup(self@, id@),
    {
        match self.entries.get(id) {
            Some(record) => Some(record.clone()),
            None => None,
        }
    }

    /// Keeps `record` under its own identifier, replacing as a whole any
    /// record kept there, and reports whether there was one.
    pub fn put(&mut self, record: Movie) -> (outcome: Outcome)
        ensures
            final(self)@ == put(old(self)@, record@),
            outcome == put_outcome(old(self)@, record@),
            keyed_by_id(old(self)@) ==> keyed_by_id(final(self)@),
    {
        let outcome = if self.entries.contains_key(record.id.as_str()) {
            Outcome::Updated
        } else {
            Outcome::Created
        };
        let key = record.id.clone();
        self.entries.insert(key, record);
        outcome
    }
}

} // verus!
