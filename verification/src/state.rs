//! Both containers under one owner: the service for a caller that needs no
//! locks.

use crate::cache::Cache;
use crate::model::{Outcome, StateView};
use crate::movie::Movie;
use crate::read_through::{lemma_uninterrupted_read, ReadStep, ReadStepView};
use crate::store::Store;
use vstd::prelude::*;

verus! {

/// Why a read gave no record.
#[derive(Clone, Copy, Debug, PartialEq, Eq, Structural)]
pub enum FetchError {
    /// Neither container keeps a record under the identifier.
    NotFound,
}

/// The store and the cache in front of it.
pub struct AppState {
    db: Store,
    cache: Cache,
}

impl View for AppState {
    type V = StateView;

    closed spec fn view(&self) -> StateView {
        StateView { store: self.db@, cache: self.cache@ }
    }
}

impl AppState {
    /// Both containers empty.
    pub fn new() -> (state: AppState)
        ensures
            state@ == StateView::empty(),
            state@.wf(),
    {
        AppState { db: Store::new(), cache: Cache::new() }
    }

    /// The authoritative container, for looking at.
    pub fn db(&self) -> (db: &Store)
        ensures
            db@ == self@.store,
    {
        &self.db
    }

    /// The container of copies, for looking at.
    pub fn cache(&self) -> (cache: &Cache)
        ensures
            cache@ == self@.cache,
    {
        &self.cache
    }

    /// Makes the one access that `step` names, for a read of `id`, and
    /// returns the step that follows. The two probes leave the containers as
    /// they are; `Populate` puts a copy of its record into the cache. For a
    /// read that is over nothing is done.
    pub fn perform(&mut self, step: ReadStep, id: &str) -> (next: ReadStep)
        ensures
            (next@, final(self)@) == step@.perform(id@, old(self)@),
    {
        match step {
            ReadStep::ProbeCache => {
                let answer = self.cache.get(id);
                ReadStep::ProbeCache.advance(answer)
            },
            ReadStep::ProbeStore => {
                let answer = self.db.get(id);
                ReadStep::ProbeStore.advance(answer)
            },
            ReadStep::Populate(record) => {
                self.cache.populate(id.to_owned(), record.clone());
                ReadStep::Populate(record).advance(None)
            },
            over => over,
        }
    }

    /// Reads the record kept under `id`, through the cache: the cached copy
    /// if there is one, and the store is not asked; else the stored record,
    /// of which a copy then goes into the cache; else `NotFound`. Between
    /// well-formed containers the record carries the identifier asked for.
    pub fn fetch(&mut self, id: &str) -> (result: Result<Movie, FetchError>)
        ensures
            match result {
                Ok(record) => old(self)@.fetched(id@) == Some(record@),
                Err(e) => e == FetchError::NotFound && old(self)@.fetched(id@) is None,
            },
            final(self)@ == old(self)@.after_fetch(id@),
            old(self)@.wf() ==> final(self)@.wf(),
            old(self)@.wf() ==> (result matches Ok(record) ==> record@.id == id@),
    {
        let mut step = ReadStep::begin();
        while !step.is_over()
            invariant
                step@.finish(id@, self@) == ReadStepView::ProbeCache.finish(id@, old(self)@),
            decreases step@.accesses_left(),
        {
            step = self.perform(step, id);
        }
        proof {
            lemma_uninterrupted_read(id@, old(self)@);
        }
        match step {
            ReadStep::Found(record) => Ok(record),
            _ => Err(FetchError::NotFound),
        }
    }

    /// Writes `record` into the store under its own identifier, replacing
    /// as a whole any record kept there, and reports whether there was one.
    /// The cache is not touched: a copy cached under that identifier stays
    /// as it is.
    pub fn store(&mut self, record: Movie) -> (outcome: Outcome)
        ensures
            outcome == old(self)@.stored(record@),
            final(self)@ == old(self)@.after_store(record@),
            old(self)@.wf() ==> final(self)@.wf(),
    {
        self.db.put(record)
    }
}

} // verus!
