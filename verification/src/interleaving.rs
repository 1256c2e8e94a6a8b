//! Theorems about reads and writes that run at the same time.
//!
//! A caller that shares the containers among threads keeps each behind a
//! lock of its own and holds one lock at a time, for one access. What runs
//! at the same time is then an interleaving of whole accesses: a write is
//! one access to the store; a read is up to three, and between any two of
//! them anything else may happen. The theorems here hold of every such
//! interleaving. That an access is not itself interrupted is the lock's
//! part, and is taken for granted here.

use crate::model::{lookup, put, StateView, Table};
use crate::movie::MovieView;
use crate::read_through::ReadStepView;
use vstd::prelude::*;

verus! {

/// A read in progress: the identifier it asks for and the step it is at.
pub struct Reader {
    pub id: Seq<char>,
    pub step: ReadStepView,
}

/// One access to a container.
pub enum Event {
    /// A write puts this record into the store.
    Write(MovieView),
    /// The reader with this index makes the access that it is due to make.
    Read(int),
}

impl Event {
    /// Whether the access writes a record with this identifier.
    pub open spec fn writes(self, id: Seq<char>) -> bool {
        self matches Event::Write(record) && record.id == id
    }
}

/// The containers and the reads in progress.
pub struct System {
    pub shared: StateView,
    pub readers: Seq<Reader>,
}

impl System {
    /// Empty containers, and one read about to begin for each identifier of
    /// `ids`.
    pub open spec fn start(ids: Seq<Seq<char>>) -> System {
        System {
            shared: StateView::empty(),
            readers: Seq::new(
                ids.len(),
                |i: int| Reader { id: ids[i], step: ReadStepView::ProbeCache },
            ),
        }
    }

    /// The system after one access. An index that names no reader changes
    /// nothing.
    pub open spec fn next(self, event: Event) -> System {
        match event {
            Event::Write(record) => System {
                shared: self.shared.after_store(record),
                readers: self.readers,
            },
            Event::Read(i) => if 0 <= i < self.readers.len() {
                let reader = self.readers[i];
                let (step, shared) = reader.step.perform(reader.id, self.shared);
                System { shared, readers: self.readers.update(i, Reader { id: reader.id, step }) }
            } else {
                self
            },
        }
    }

    /// The system after the accesses of `schedule`, first to last.
    pub open spec fn after(self, schedule: Seq<Event>) -> System
        decreases schedule.len(),
    {
        if schedule.len() == 0 {
            self
        } else {
            self.after(schedule.drop_last()).next(schedule.last())
        }
    }

    /// What holds of the containers and of every read in progress at all
    /// times: the containers are well-formed, and a read that carries a
    /// record carries one with the identifier it asked for, which the store
    /// knows.
    pub open spec fn wf(self) -> bool {
        &&& self.shared.wf()
        &&& forall|i: int|
            0 <= i < self.readers.len() ==> on_track(#[trigger] self.readers[i], self.shared.store)
    }
}

/// A read that carries a record carries one with the identifier it asked
/// for, and the store keeps a record under that identifier.
pub open spec fn on_track(reader: Reader, store: Table) -> bool {
    reader.step.carried() matches Some(record) ==> record.id == reader.id && store.contains_key(
        reader.id,
    )
}

/// The records that the writes of `schedule` carry, first to last.
pub open spec fn written(schedule: Seq<Event>) -> Seq<MovieView>
    decreases schedule.len(),
{
    if schedule.len() == 0 {
        Seq::empty()
    } else {
        match schedule.last() {
            Event::Write(record) => written(schedule.drop_last()).push(record),
            Event::Read(_) => written(schedule.drop_last()),
        }
    }
}

/// The table after each record of `records` has been put into it, first to
/// last.
pub open spec fn put_all(table: Table, records: Seq<MovieView>) -> Table
    decreases records.len(),
{
    if records.len() == 0 {
        table
    } else {
        put(put_all(table, records.drop_last()), records.last())
    }
}

/// No two records of `records` have the same identifier.
pub open spec fn distinct_ids(records: Seq<MovieView>) -> bool {
    forall|i: int, j: int|
        0 <= i < j < records.len() ==> (#[trigger] records[i]).id != (#[trigger] records[j]).id
}

/// Some record of `records` has this identifier.
pub open spec fn names(records: Seq<MovieView>, id: Seq<char>) -> bool {
    exists|i: int| 0 <= i < records.len() && (#[trigger] records[i]).id == id
}

/// A sequence names an identifier when its last record has it or an earlier
/// one does.
pub proof fn lemma_names_last(records: Seq<MovieView>, id: Seq<char>)
    requires
        records.len() > 0,
    ensures
        names(records, id) <==> names(records.drop_last(), id) || records.last().id == id,
{
    if names(records, id) && records.last().id != id {
        let i = choose|i: int| 0 <= i < records.len() && (#[trigger] records[i]).id == id;
        assert(records.drop_last()[i].id == id);
    }
}

/// No write is lost and no read disturbs the store: after any interleaving
/// the store is what the writes alone, in the order in which they took
/// place, make of it.
pub proof fn lemma_store_holds_the_writes(from: System, schedule: Seq<Event>)
    ensures
        from.after(schedule).shared.store == put_all(from.shared.store, written(schedule)),
        from.after(schedule).readers.len() == from.readers.len(),
    decreases schedule.len(),
{
    if schedule.len() > 0 {
        lemma_store_holds_the_writes(from, schedule.drop_last());
        if let Event::Write(record) = schedule.last() {
            let earlier = written(schedule.drop_last());
            assert(earlier.push(record).drop_last() == earlier);
        }
    }
}

/// Records with distinct identifiers, put into a table in any order, are
/// all there afterwards, each under its identifier and as it was put; and
/// the table keeps whatever else it held, and nothing more.
pub proof fn lemma_put_all_distinct(table: Table, records: Seq<MovieView>)
    requires
        distinct_ids(records),
    ensures
        forall|i: int|
            0 <= i < records.len() ==> lookup(
                put_all(table, records),
                (#[trigger] records[i]).id,
            ) == Some(records[i]),
        forall|id: Seq<char>|
            #![trigger put_all(table, records).contains_key(id)]
            #![trigger names(records, id)]
            put_all(table, records).contains_key(id) <==> table.contains_key(id) || names(
                records,
                id,
            ),
        forall|id: Seq<char>|
            #![trigger lookup(put_all(table, records), id)]
            !names(records, id) ==> lookup(put_all(table, records), id) == lookup(table, id),
    decreases records.len(),
{
    if records.len() > 0 {
        let earlier = records.drop_last();
        lemma_put_all_distinct(table, earlier);
        assert forall|i: int| 0 <= i < records.len() implies lookup(
            put_all(table, records),
            (#[trigger] records[i]).id,
        ) == Some(records[i]) by {
            if i < records.len() - 1 {
                assert(earlier[i] == records[i]);
            }
        }
        assert forall|id: Seq<char>|
            #![trigger put_all(table, records).contains_key(id)]
            #![trigger names(records, id)]
            put_all(table, records).contains_key(id) <==> table.contains_key(id) || names(
                records,
                id,
            ) by {
            lemma_names_last(records, id);
        }
        assert forall|id: Seq<char>| !names(records, id) implies #[trigger] lookup(
            put_all(table, records),
            id,
        ) == lookup(table, id) by {
            lemma_names_last(records, id);
            assert(lookup(put_all(table, earlier), id) == lookup(table, id));
        }
    }
}

/// The identifiers of `records`, as a set.
pub open spec fn ids_of(records: Seq<MovieView>) -> Set<Seq<char>> {
    Set::new(|id: Seq<char>| names(records, id))
}

/// Writes of records with distinct identifiers, running at the same time as
/// any number of reads and interleaved with them in any way, leave a store
/// that was empty with exactly the records written: each is there under its
/// identifier, whole and as it was written, nothing else is there, and the
/// store holds as many records as there were writes.
pub proof fn lemma_concurrent_writes_all_land(ids: Seq<Seq<char>>, schedule: Seq<Event>)
    requires
        distinct_ids(written(schedule)),
    ensures
        forall|i: int|
            0 <= i < written(schedule).len() ==> lookup(
                System::start(ids).after(schedule).shared.store,
                (#[trigger] written(schedule)[i]).id,
            ) == Some(written(schedule)[i]),
        System::start(ids).after(schedule).shared.store.dom() == ids_of(written(schedule)),
        System::start(ids).after(schedule).shared.store.dom().finite(),
        System::start(ids).after(schedule).shared.store.dom().len() == written(schedule).len(),
{
    lemma_store_holds_the_writes(System::start(ids), schedule);
    lemma_put_all_distinct(Table::empty(), written(schedule));
    lemma_distinct_ids_count(written(schedule));
}

/// Records with distinct identifiers have as many identifiers as there are
/// records.
pub proof fn lemma_distinct_ids_count(records: Seq<MovieView>)
    requires
        distinct_ids(records),
    ensures
        ids_of(records).finite(),
        ids_of(records).len() == records.len(),
    decreases records.len(),
{
    if records.len() == 0 {
        assert(ids_of(records) =~= Set::empty());
    } else {
        let earlier = records.drop_last();
        lemma_distinct_ids_count(earlier);
        assert forall|id: Seq<char>| names(records, id) <==> names(earlier, id) || id
            == records.last().id by {
            lemma_names_last(records, id);
        }
        assert(ids_of(records) =~= ids_of(earlier).insert(records.last().id));
    }
}

/// Whatever the interleaving, the containers stay well-formed and every
/// read stays on track: the cache knows no identifier that the store does
/// not, and a read never answers with a record of another identifier than
/// the one it asked for.
pub proof fn lemma_schedule_keeps_wf(from: System, schedule: Seq<Event>)
    requires
        from.wf(),
    ensures
        from.after(schedule).wf(),
    decreases schedule.len(),
{
    if schedule.len() > 0 {
        lemma_schedule_keeps_wf(from, schedule.drop_last());
    }
}

/// From start-up on the containers are well-formed and every read is on
/// track, whatever the interleaving.
pub proof fn lemma_wf_after_start(ids: Seq<Seq<char>>, schedule: Seq<Event>)
    ensures
        System::start(ids).after(schedule).wf(),
{
    lemma_schedule_keeps_wf(System::start(ids), schedule);
}

/// Every record in sight, be it in the store, in the cache or in the hand
/// of a read, is one of `records`.
pub open spec fn all_among(system: System, records: Seq<MovieView>) -> bool {
    &&& forall|id: Seq<char>| #[trigger]
        system.shared.store.contains_key(id) ==> records.contains(system.shared.store[id])
    &&& forall|id: Seq<char>| #[trigger]
        system.shared.cache.contains_key(id) ==> records.contains(system.shared.cache[id])
    &&& forall|i: int|
        0 <= i < system.readers.len() ==> ((#[trigger] system.readers[i]).step.carried() matches Some(
            record,
        ) ==> records.contains(record))
}

/// No read sees a record that nobody wrote. Whatever the interleaving,
/// every record that the store keeps, that the cache keeps or that a read
/// answers with is, field for field, a record that one of the writes
/// carried.
pub proof fn lemma_only_written_records_in_sight(ids: Seq<Seq<char>>, schedule: Seq<Event>)
    ensures
        all_among(System::start(ids).after(schedule), written(schedule)),
        forall|i: int|
            0 <= i < ids.len() ==> ((#[trigger] System::start(ids).after(
                schedule,
            ).readers[i]).step matches ReadStepView::Found(record) ==> written(schedule).contains(
                record,
            )),
    decreases schedule.len(),
{
    lemma_store_holds_the_writes(System::start(ids), schedule);
    if schedule.len() > 0 {
        let earlier = written(schedule.drop_last());
        lemma_only_written_records_in_sight(ids, schedule.drop_last());
        lemma_store_holds_the_writes(System::start(ids), schedule.drop_last());
        if let Event::Write(record) = schedule.last() {
            assert forall|other: MovieView| earlier.contains(other) implies earlier.push(
                record,
            ).contains(other) by {
                let i = choose|i: int| 0 <= i < earlier.len() && earlier[i] == other;
                assert(earlier.push(record)[i] == other);
            }
        }
    }
}

/// No access of `schedule` writes a record with this identifier.
pub open spec fn no_write_of(schedule: Seq<Event>, id: Seq<char>) -> bool {
    forall|k: int| 0 <= k < schedule.len() ==> !(#[trigger] schedule[k]).writes(id)
}

/// Nothing about `id` is stale: the cached copy, if there is one, and the
/// record in the hand of every read of `id` are the record that the store
/// keeps under `id`.
pub open spec fn coherent(system: System, id: Seq<char>) -> bool {
    &&& system.shared.cache.contains_key(id) ==> lookup(system.shared.cache, id) == lookup(
        system.shared.store,
        id,
    )
    &&& forall|i: int|
        0 <= i < system.readers.len() && (#[trigger] system.readers[i]).id == id ==> (
        system.readers[i].step.carried() matches Some(record) ==> lookup(system.shared.store, id)
            == Some(record))
}

/// Reads that race do no harm. As long as no write of `id` comes in
/// between, reads of `id` may interleave with each other, and with reads and
/// writes of other identifiers, in any way: the store keeps its record of
/// `id`, and every copy that goes into the cache and every answer that a
/// read gives is that record.
pub proof fn lemma_race_without_write_is_benign(from: System, schedule: Seq<Event>, id: Seq<char>)
    requires
        coherent(from, id),
        no_write_of(schedule, id),
    ensures
        coherent(from.after(schedule), id),
        lookup(from.after(schedule).shared.store, id) == lookup(from.shared.store, id),
    decreases schedule.len(),
{
    if schedule.len() > 0 {
        lemma_race_without_write_is_benign(from, schedule.drop_last(), id);
    }
}

} // verus!
