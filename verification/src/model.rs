//! What the containers and the service mean, over maps of record views.
//!
//! Every contract of the executable code is stated through the functions of
//! this module, and so is every theorem about sequences of operations.

use crate::movie::MovieView;
use vstd::prelude::*;

verus! {

/// A mapping from identifier to record, the model of either container.
pub type Table = Map<Seq<char>, MovieView>;

/// What a write reports: whether the identifier was new to the store.
#[derive(Clone, Copy, Debug, PartialEq, Eq, Structural)]
pub enum Outcome {
    /// No record was kept under the identifier before.
    Created,
    /// A record was kept under the identifier and has been replaced.
    Updated,
}

/// Every record of the table is kept under its own identifier.
pub open spec fn keyed_by_id(table: Table) -> bool {
    forall|id: Seq<char>| #[trigger] table.contains_key(id) ==> table[id].id == id
}

/// The record kept under `id`, if there is one.
pub open spec fn lookup(table: Table, id: Seq<char>) -> Option<MovieView> {
    if table.contains_key(id) {
        Some(table[id])
    } else {
        None
    }
}

/// The table after `record` has been written under its own identifier,
/// replacing whatever was kept there.
pub open spec fn put(table: Table, record: MovieView) -> Table {
    table.insert(record.id, record)
}

/// What writing `record` into the table reports.
pub open spec fn put_outcome(table: Table, record: MovieView) -> Outcome {
    if table.contains_key(record.id) {
        Outcome::Updated
    } else {
        Outcome::Created
    }
}

/// The two containers of the service, side by side.
pub struct StateView {
    /// The authoritative table: every write lands here.
    pub store: Table,
    /// The table of copies, filled by reads that missed it.
    pub cache: Table,
}

impl StateView {
    /// Both containers empty, as at start-up.
    pub open spec fn empty() -> StateView {
        StateView { store: Map::empty(), cache: Map::empty() }
    }

    /// What holds of the two containers at all times: records sit under
    /// their own identifiers, and the cache knows no identifier that the
    /// store does not. The cached *record* may be an older one.
    pub open spec fn wf(self) -> bool {
        &&& keyed_by_id(self.store)
        &&& keyed_by_id(self.cache)
        &&& self.cache.dom().subset_of(self.store.dom())
    }

    /// What a read of `id` answers: the cached copy if there is one, else
    /// the stored record, else nothing.
    pub open spec fn fetched(self, id: Seq<char>) -> Option<MovieView> {
        if self.cache.contains_key(id) {
            Some(self.cache[id])
        } else {
            lookup(self.store, id)
        }
    }

    /// The containers after a read of `id`: a read that misses the cache
    /// and hits the store copies the stored record into the cache; any other
    /// read changes nothing.
    pub open spec fn after_fetch(self, id: Seq<char>) -> StateView {
        if !self.cache.contains_key(id) && self.store.contains_key(id) {
            StateView { store: self.store, cache: self.cache.insert(id, self.store[id]) }
        } else {
            self
        }
    }

    /// What a write of `record` reports.
    pub open spec fn stored(self, record: MovieView) -> Outcome {
        put_outcome(self.store, record)
    }

    /// The containers after a write of `record`: the store holds it, the
    /// cache is as it was.
    pub open spec fn after_store(self, record: MovieView) -> StateView {
        StateView { store: put(self.store, record), cache: self.cache }
    }
}

} // verus!
