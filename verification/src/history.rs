//! Theorems about sequences of operations on the service, each operation
//! carried through before the next begins.

use crate::model::{lookup, Outcome, StateView};
use crate::movie::MovieView;
use vstd::prelude::*;

verus! {

/// One operation of the service.
pub enum Op {
    /// A write of this record.
    Store(MovieView),
    /// A read of this identifier.
    Fetch(Seq<char>),
}

impl Op {
    /// The containers after the operation.
    pub open spec fn apply(self, to: StateView) -> StateView {
        match self {
            Op::Store(record) => to.after_store(record),
            Op::Fetch(id) => to.after_fetch(id),
        }
    }

    /// Whether the operation writes a record with this identifier.
    pub open spec fn writes(self, id: Seq<char>) -> bool {
        self matches Op::Store(record) && record.id == id
    }

    /// Whether the operation reads this identifier.
    pub open spec fn reads(self, id: Seq<char>) -> bool {
        self matches Op::Fetch(asked) && asked == id
    }
}

/// The containers after the operations of `ops`, first to last.
pub open spec fn run(from: StateView, ops: Seq<Op>) -> StateView
    decreases ops.len(),
{
    if ops.len() == 0 {
        from
    } else {
        ops.last().apply(run(from, ops.drop_last()))
    }
}

/// No operation of `ops` writes a record with this identifier.
pub open spec fn never_written(ops: Seq<Op>, id: Seq<char>) -> bool {
    forall|i: int| 0 <= i < ops.len() ==> !(#[trigger] ops[i]).writes(id)
}

/// No operation of `ops` reads this identifier.
pub open spec fn never_read(ops: Seq<Op>, id: Seq<char>) -> bool {
    forall|i: int| 0 <= i < ops.len() ==> !(#[trigger] ops[i]).reads(id)
}

/// Whatever the operations, the containers stay well-formed: records sit
/// under their own identifiers and the cache knows no identifier that the
/// store does not. In particular this holds of everything that can come
/// after start-up.
pub proof fn lemma_run_keeps_wf(from: StateView, ops: Seq<Op>)
    requires
        from.wf(),
    ensures
        run(from, ops).wf(),
        StateView::empty().wf(),
    decreases ops.len(),
{
    if ops.len() > 0 {
        lemma_run_keeps_wf(from, ops.drop_last());
    }
}

/// The store never forgets an identifier, and neither does the cache.
pub proof fn lemma_run_keeps_keys(from: StateView, ops: Seq<Op>, id: Seq<char>)
    ensures
        from.store.contains_key(id) ==> run(from, ops).store.contains_key(id),
        from.cache.contains_key(id) ==> run(from, ops).cache.contains_key(id),
    decreases ops.len(),
{
    if ops.len() > 0 {
        lemma_run_keeps_keys(from, ops.drop_last(), id);
    }
}

/// Write, then read. A record whose identifier the store does not know is
/// reported as created, and the first read of its identifier that follows
/// answers with that very record, whatever is done with other identifiers
/// in between.
pub proof fn lemma_write_then_read(before: StateView, record: MovieView, between: Seq<Op>)
    requires
        before.wf(),
        !before.store.contains_key(record.id),
        never_written(between, record.id),
        never_read(between, record.id),
    ensures
        before.stored(record) == Outcome::Created,
        !run(before.after_store(record), between).cache.contains_key(record.id),
        run(before.after_store(record), between).fetched(record.id) == Some(record),
    decreases between.len(),
{
    if between.len() > 0 {
        lemma_write_then_read(before, record, between.drop_last());
    }
}

/// After start-up, the first write of an identifier is reported as
/// created, and the first read of that identifier after it answers with the
/// record written, whatever was done before with other identifiers and
/// whatever is done with them in between.
pub proof fn lemma_first_write_after_start(earlier: Seq<Op>, record: MovieView, between: Seq<Op>)
    requires
        never_written(earlier, record.id),
        never_written(between, record.id),
        never_read(between, record.id),
    ensures
        run(StateView::empty(), earlier).stored(record) == Outcome::Created,
        run(run(StateView::empty(), earlier).after_store(record), between).fetched(record.id)
            == Some(record),
{
    lemma_never_written_not_found(StateView::empty(), earlier, record.id);
    lemma_run_keeps_wf(StateView::empty(), earlier);
    lemma_write_then_read(run(StateView::empty(), earlier), record, between);
}

/// A cached answer is stable. Once a read of `id` has answered with a
/// record, every later read of `id` answers with the same record, whatever
/// is written or read in between, also where the record in the store has
/// been replaced since.
pub proof fn lemma_answer_is_stable(before: StateView, id: Seq<char>, between: Seq<Op>)
    requires
        before.fetched(id) is Some,
    ensures
        run(before.after_fetch(id), between).fetched(id) == before.fetched(id),
        run(before.after_fetch(id), between).cache.contains_key(id),
    decreases between.len(),
{
    if between.len() > 0 {
        lemma_answer_is_stable(before, id, between.drop_last());
    }
}

/// A write does not reach the cache: the write protocol touches the store
/// alone.
pub proof fn lemma_write_is_local(on: StateView, other: StateView, record: MovieView)
    ensures
        on.after_store(record).cache == on.cache,
        on.store == other.store ==> on.stored(record) == other.stored(record)
            && on.after_store(record).store == other.after_store(record).store,
{
}

/// A cached copy outlives the record it was taken from. Where a read of `id` has answered with
/// a record and a write then replaces the record in the store, the store
/// holds the newer record while a read of `id` still answers with the older
/// one.
pub proof fn lemma_overwrite_leaves_stale_copy(before: StateView, id: Seq<char>, newer: MovieView)
    requires
        before.fetched(id) is Some,
        newer.id == id,
    ensures
        lookup(before.after_fetch(id).after_store(newer).store, id) == Some(newer),
        before.after_fetch(id).after_store(newer).fetched(id) == before.fetched(id),
{
}

/// The first write of an identifier is reported as created, and every
/// write of that identifier after it as updated, whatever the record it
/// carries and whatever is written or read in between.
pub proof fn lemma_later_write_is_update(
    before: StateView,
    first: MovieView,
    between: Seq<Op>,
    again: MovieView,
)
    requires
        again.id == first.id,
    ensures
        !before.store.contains_key(first.id) ==> before.stored(first) == Outcome::Created,
        run(before.after_store(first), between).stored(again) == Outcome::Updated,
{
    lemma_run_keeps_keys(before.after_store(first), between, first.id);
}

/// A read of an identifier that no write has named finds nothing, and
/// leaves both containers without it.
pub proof fn lemma_never_written_not_found(from: StateView, ops: Seq<Op>, id: Seq<char>)
    requires
        from.wf(),
        !from.store.contains_key(id),
        never_written(ops, id),
    ensures
        run(from, ops).fetched(id) is None,
        !run(from, ops).store.contains_key(id),
        !run(from, ops).cache.contains_key(id),
    decreases ops.len(),
{
    if ops.len() > 0 {
        lemma_never_written_not_found(from, ops.drop_last(), id);
        lemma_run_keeps_wf(from, ops.drop_last());
    }
}

/// After start-up, a read of an identifier that no write has named finds
/// nothing.
pub proof fn lemma_absent_after_start(ops: Seq<Op>, id: Seq<char>)
    requires
        never_written(ops, id),
    ensures
        run(StateView::empty(), ops).fetched(id) is None,
{
    lemma_never_written_not_found(StateView::empty(), ops, id);
}

} // verus!
