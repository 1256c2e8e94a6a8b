//! The read protocol, one container access at a time.
//!
//! A read touches the cache, then perhaps the store, then perhaps the cache
//! again, and never two containers at once. [`ReadStep`] names the access
//! that is due next; the caller performs it, holding only the lock of the
//! container that the step names, and hands the answer to
//! [`ReadStep::advance`]. The caller never decides what comes next.

use crate::model::{lookup, StateView};
use crate::movie::{view_of, Movie, MovieView};
use vstd::prelude::*;

verus! {

/// The access that a read in progress is due to make next, or its result.
#[derive(Debug, PartialEq, Eq)]
pub enum ReadStep {
    /// Look the identifier up in the cache, with shared access to it.
    ProbeCache,
    /// The cache had no copy: look the identifier up in the store, with
    /// shared access to it.
    ProbeStore,
    /// The store had the record: put a copy of it into the cache, with
    /// exclusive access to it.
    Populate(Movie),
    /// The read is over and answers with this record.
    Found(Movie),
    /// The read is over: no record is kept under the identifier.
    NotFound,
}

/// The view of a [`ReadStep`].
pub enum ReadStepView {
    ProbeCache,
    ProbeStore,
    Populate(MovieView),
    Found(MovieView),
    NotFound,
}

impl View for ReadStep {
    type V = ReadStepView;

    open spec fn view(&self) -> ReadStepView {
        match self {
            ReadStep::ProbeCache => ReadStepView::ProbeCache,
            ReadStep::ProbeStore => ReadStepView::ProbeStore,
            ReadStep::Populate(record) => ReadStepView::Populate(record@),
            ReadStep::Found(record) => ReadStepView::Found(record@),
            ReadStep::NotFound => ReadStepView::NotFound,
        }
    }
}

impl ReadStepView {
    /// The step that follows once the container has answered `answer`.
    /// A hit in the cache ends the read; a miss sends it to the store. A hit
    /// in the store sends it back to the cache with the record; a miss ends
    /// it. `Populate` has no answer to wait for and ends the read with its
    /// record. A read that is over stays as it is.
    pub open spec fn advance(self, answer: Option<MovieView>) -> ReadStepView {
        match self {
            ReadStepView::ProbeCache => match answer {
                Some(record) => ReadStepView::Found(record),
                None => ReadStepView::ProbeStore,
            },
            ReadStepView::ProbeStore => match answer {
                Some(record) => ReadStepView::Populate(record),
                None => ReadStepView::NotFound,
            },
            ReadStepView::Populate(record) => ReadStepView::Found(record),
            ReadStepView::Found(record) => ReadStepView::Found(record),
            ReadStepView::NotFound => ReadStepView::NotFound,
        }
    }

    /// Whether the read is over.
    pub open spec fn is_over(self) -> bool {
        self is Found || self is NotFound
    }

    /// What the read answers, once it is over.
    pub open spec fn answer(self) -> Option<MovieView> {
        match self {
            ReadStepView::Found(record) => Some(record),
            _ => None,
        }
    }

    /// The record that the read has in hand at this step, if it has one.
    pub open spec fn carried(self) -> Option<MovieView> {
        match self {
            ReadStepView::Populate(record) => Some(record),
            ReadStepView::Found(record) => Some(record),
            _ => None,
        }
    }

    /// The largest number of container accesses still to come.
    pub open spec fn accesses_left(self) -> nat {
        match self {
            ReadStepView::ProbeCache => 3,
            ReadStepView::ProbeStore => 2,
            ReadStepView::Populate(_) => 1,
            ReadStepView::Found(_) => 0,
            ReadStepView::NotFound => 0,
        }
    }

    /// The step performed on the containers, for a read of `id`: the step
    /// that follows, and the containers as the access leaves them. The two
    /// probes change nothing; `Populate` overwrites the cached copy.
    pub open spec fn perform(self, id: Seq<char>, on: StateView) -> (ReadStepView, StateView) {
        match self {
            ReadStepView::ProbeCache => (self.advance(lookup(on.cache, id)), on),
            ReadStepView::ProbeStore => (self.advance(lookup(on.store, id)), on),
            ReadStepView::Populate(record) => (
                self.advance(None),
                StateView { store: on.store, cache: on.cache.insert(id, record) },
            ),
            _ => (self, on),
        }
    }

    /// The read carried through to its end with nothing else happening in
    /// between.
    pub open spec fn finish(self, id: Seq<char>, on: StateView) -> (ReadStepView, StateView)
        decreases self.accesses_left(),
    {
        if self.is_over() {
            (self, on)
        } else {
            let (next, then) = self.perform(id, on);
            next.finish(id, then)
        }
    }
}

impl ReadStep {
    /// The first step of every read: ask the cache.
    pub fn begin() -> (step: ReadStep)
        ensures
            step@ == ReadStepView::ProbeCache,
    {
        ReadStep::ProbeCache
    }

    /// The step that follows once the access that `self` names has been
    /// made and has answered `answer`. For `Populate`, which has no answer,
    /// and for a read that is over, `answer` is not looked at.
    pub fn advance(self, answer: Option<Movie>) -> (next: ReadStep)
        ensures
            next@ == self@.advance(view_of(answer)),
    {
        match self {
            ReadStep::ProbeCache => match answer {
                Some(record) => ReadStep::Found(record),
                None => ReadStep::ProbeStore,
            },
            ReadStep::ProbeStore => match answer {
                Some(record) => ReadStep::Populate(record),
                None => ReadStep::NotFound,
            },
            ReadStep::Populate(record) => ReadStep::Found(record),
            ReadStep::Found(record) => ReadStep::Found(record),
            ReadStep::NotFound => ReadStep::NotFound,
        }
    }

    /// Whether the read is over, so that no access is due any more.
    pub fn is_over(&self) -> (over: bool)
        ensures
            over == self@.is_over(),
    {
        match self {
            ReadStep::Found(_) => true,
            ReadStep::NotFound => true,
            _ => false,
        }
    }
}

/// Every access brings a read nearer to its end, and the store is asked at
/// most once: only a miss in the cache, the first access of all, leads to
/// it.
pub proof fn lemma_read_makes_progress(step: ReadStepView, answer: Option<MovieView>)
    ensures
        step.accesses_left() <= 3,
        !step.is_over() ==> step.advance(answer).accesses_left() < step.accesses_left(),
        step.is_over() <==> step.accesses_left() == 0,
        step.advance(answer) is ProbeStore ==> step is ProbeCache && answer is None,
        !(step.advance(answer) is ProbeCache),
{
}

/// No access of a read has to do with more than one container. What a probe
/// of the cache leads to is decided by the cache alone, what a probe of the
/// store leads to by the store alone, and neither changes anything;
/// `Populate` looks at neither container and changes the cache alone. So a
/// caller can make each access under the lock of one container, and never
/// needs a second lock while it holds one.
pub proof fn lemma_access_is_local(step: ReadStepView, id: Seq<char>, on: StateView, other: StateView)
    ensures
        step is ProbeCache && on.cache == other.cache ==> step.perform(id, on).0 == step.perform(
            id,
            other,
        ).0,
        step is ProbeStore && on.store == other.store ==> step.perform(id, on).0 == step.perform(
            id,
            other,
        ).0,
        step is Populate ==> step.perform(id, on).0 == step.perform(id, other).0,
        step is Populate && on.cache == other.cache ==> step.perform(id, on).1.cache
            == step.perform(id, other).1.cache,
        !(step is Populate) ==> step.perform(id, on).1 == on,
        step.perform(id, on).1.store == on.store,
{
}

/// A read that nothing interrupts answers with the cached copy if there is
/// one, else with the stored record, else with nothing; and it leaves a copy
/// of the stored record in the cache exactly when it missed the cache and
/// hit the store.
pub proof fn lemma_uninterrupted_read(id: Seq<char>, on: StateView)
    ensures
        ReadStepView::ProbeCache.finish(id, on).0.is_over(),
        ReadStepView::ProbeCache.finish(id, on).0.answer() == on.fetched(id),
        ReadStepView::ProbeCache.finish(id, on).0 is NotFound <==> on.fetched(id) is None,
        ReadStepView::ProbeCache.finish(id, on).1 == on.after_fetch(id),
{
    reveal_with_fuel(ReadStepView::finish, 4);
}

} // verus!
