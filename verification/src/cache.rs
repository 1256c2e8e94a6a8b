//! The container of copies.

use crate::model::{lookup, Table};
use crate::movie::{view_of, Movie};
use vstd::hash_map::StringHashMap;
use vstd::prelude::*;

verus! {

/// Copies of records, kept to answer repeated reads. It is never the source
/// of truth, and nothing is ever removed from it.
pub struct Cache {
    entries: StringHashMap<Movie>,
}

impl View for Cache {
    type V = Table;

    closed spec fn view(&self) -> Table {
        Map::new(
            |id: Seq<char>| self.entries@.contains_key(id),
            |id: Seq<char>| self.entries@[id]@,
        )
    }
}

impl Cache {
    /// An empty cache.
    pub fn new() -> (cache: Cache)
        ensures
            cache@ == Table::empty(),
    {
        Cache { entries: StringHashMap::new() }
    }

    /// How many copies the cache keeps.
    pub fn len(&self) -> (count: usize)
        ensures
            count == self@.dom().len(),
    {
        assert(self@.dom() =~= self.entries@.dom());
        self.entries.len()
    }

    /// A copy of the record cached under `id`, or `None` if there is none.
    /// The cache is left as it is.
    pub fn get(&self, id: &str) -> (found: Option<Movie>)
        ensures
            view_of(found) == lookup(self@, id@),
    {
        match self.entries.get(id) {
            Some(record) => Some(record.clone()),
            None => None,
        }
    }

    /// Caches `record` under `id`, replacing any copy cached there.
    pub fn populate(&mut self, id: String, record: Movie)
        ensures
            final(self)@ == old(self)@.insert(id@, record@),
    {
        self.entries.insert(id, record);
    }
}

} // verus!
