//! The service as one owner sees it: reads through the cache, writes to the
//! store alone.

use movie_cache::model::Outcome;
use movie_cache::movie::Movie;
use movie_cache::read_through::ReadStep;
use movie_cache::state::{AppState, FetchError};

fn dune() -> Movie {
    Movie::new("1", "Dune", 2021, true)
}

fn dune_part_two() -> Movie {
    Movie::new("1", "Dune Part Two", 2024, true)
}

#[test]
fn stale_copy_survives_an_update() {
    let mut state = AppState::new();

    assert_eq!(state.store(dune()), Outcome::Created);
    assert_eq!(state.fetch("1"), Ok(dune()));

    assert_eq!(state.store(dune_part_two()), Outcome::Updated);
    assert_eq!(state.fetch("1"), Ok(dune()));

    assert_eq!(state.db().get("1"), Some(dune_part_two()));
    assert_eq!(state.cache().get("1"), Some(dune()));
}

#[test]
fn first_write_is_created_and_read_back_unchanged() {
    let mut state = AppState::new();
    let record = Movie {
        id: String::from("tt0087182"),
        name: String::from("Dune"),
        year: 1984,
        was_good: false,
    };

    assert_eq!(state.store(record.clone()), Outcome::Created);
    assert_eq!(state.cache().get("tt0087182"), None);

    let read = state.fetch("tt0087182").unwrap();
    assert_eq!(read.id, "tt0087182");
    assert_eq!(read.name, "Dune");
    assert_eq!(read.year, 1984);
    assert!(!read.was_good);
    assert_eq!(read, record);
}

#[test]
fn repeated_reads_give_the_first_answer() {
    let mut state = AppState::new();
    state.store(dune());
    let first = state.fetch("1").unwrap();

    state.store(dune_part_two());
    state.store(Movie::new("2", "Arrival", 2016, true));
    assert_eq!(state.fetch("2"), Ok(Movie::new("2", "Arrival", 2016, true)));
    state.store(Movie::new("1", "Dune Messiah", 2026, false));

    for _ in 0..5 {
        assert_eq!(state.fetch("1"), Ok(first.clone()));
    }
    assert_eq!(state.db().get("1"), Some(Movie::new("1", "Dune Messiah", 2026, false)));
}

#[test]
fn writing_again_is_updated_whatever_the_payload() {
    let mut state = AppState::new();

    assert_eq!(state.store(dune()), Outcome::Created);
    assert_eq!(state.store(dune()), Outcome::Updated);
    assert_eq!(state.store(dune_part_two()), Outcome::Updated);
    assert_eq!(state.store(Movie::new("1", "", 0, false)), Outcome::Updated);

    assert_eq!(state.store(Movie::new("2", "Dune", 2021, true)), Outcome::Created);
    assert_eq!(state.store(dune()), Outcome::Updated);
}

#[test]
fn last_write_replaces_the_record_as_a_whole() {
    let mut state = AppState::new();
    state.store(dune());
    state.store(Movie::new("1", "Tenet", 2020, false));

    assert_eq!(state.db().get("1"), Some(Movie::new("1", "Tenet", 2020, false)));
    assert_eq!(state.fetch("1"), Ok(Movie::new("1", "Tenet", 2020, false)));
}

#[test]
fn unknown_identifier_is_not_found() {
    let mut state = AppState::new();
    assert_eq!(state.fetch("1"), Err(FetchError::NotFound));

    state.store(dune());
    state.store(Movie::new("2", "Arrival", 2016, true));
    assert_eq!(state.fetch("2"), Ok(Movie::new("2", "Arrival", 2016, true)));

    assert_eq!(state.fetch("3"), Err(FetchError::NotFound));
    assert_eq!(state.fetch("11"), Err(FetchError::NotFound));
    assert_eq!(state.fetch(""), Err(FetchError::NotFound));
    assert_eq!(state.fetch("Dune"), Err(FetchError::NotFound));
}

#[test]
fn read_that_finds_nothing_changes_nothing() {
    let mut state = AppState::new();
    state.store(dune());

    assert_eq!(state.fetch("2"), Err(FetchError::NotFound));
    assert_eq!(state.cache().get("2"), None);
    assert_eq!(state.db().get("2"), None);
    assert_eq!(state.cache().get("1"), None);

    assert_eq!(state.store(Movie::new("2", "Arrival", 2016, true)), Outcome::Created);
    assert_eq!(state.fetch("2"), Ok(Movie::new("2", "Arrival", 2016, true)));
}

#[test]
fn write_leaves_the_cache_alone() {
    let mut state = AppState::new();
    state.store(dune());
    assert_eq!(state.cache().get("1"), None);

    state.fetch("1").unwrap();
    assert_eq!(state.cache().get("1"), Some(dune()));

    state.store(dune_part_two());
    assert_eq!(state.cache().get("1"), Some(dune()));
}

#[test]
fn read_that_misses_the_cache_fills_it_from_the_store() {
    let mut state = AppState::new();
    state.store(dune());
    state.store(dune_part_two());

    assert_eq!(state.cache().get("1"), None);
    assert_eq!(state.fetch("1"), Ok(dune_part_two()));
    assert_eq!(state.cache().get("1"), Some(dune_part_two()));
    assert_eq!(state.db().get("1"), Some(dune_part_two()));
}

#[test]
fn read_answers_under_the_identifier_asked_for() {
    let mut state = AppState::new();
    for id in ["a", "b", "c"] {
        state.store(Movie::new(id, "Solaris", 1972, true));
    }
    for id in ["c", "a", "b", "a"] {
        assert_eq!(state.fetch(id).unwrap().id, id);
    }
}

#[test]
fn empty_identifier_is_a_key_like_any_other() {
    let mut state = AppState::new();
    assert_eq!(state.store(Movie::new("", "Untitled", 1999, false)), Outcome::Created);
    assert_eq!(state.fetch(""), Ok(Movie::new("", "Untitled", 1999, false)));
    assert_eq!(state.store(Movie::new("", "Titled", 2000, true)), Outcome::Updated);
    assert_eq!(state.fetch(""), Ok(Movie::new("", "Untitled", 1999, false)));
}

#[test]
fn year_keeps_its_full_range() {
    let mut state = AppState::new();
    state.store(Movie::new("first", "Roundhay Garden Scene", 0, true));
    state.store(Movie::new("last", "Far Future", 65535, false));

    assert_eq!(state.fetch("first").unwrap().year, 0);
    assert_eq!(state.fetch("last").unwrap().year, u16::MAX);
}

#[test]
fn identifiers_are_compared_character_by_character() {
    let mut state = AppState::new();
    state.store(Movie::new("dune", "Dune", 2021, true));

    assert_eq!(state.fetch("Dune"), Err(FetchError::NotFound));
    assert_eq!(state.fetch("dune "), Err(FetchError::NotFound));
    assert_eq!(state.fetch("d\u{fc}ne"), Err(FetchError::NotFound));
    assert_eq!(state.fetch("dune"), Ok(Movie::new("dune", "Dune", 2021, true)));

    state.store(Movie::new("d\u{fc}ne", "Der W\u{fc}stenplanet", 1984, false));
    assert_eq!(state.fetch("d\u{fc}ne").unwrap().name, "Der W\u{fc}stenplanet");
}

#[test]
fn new_state_is_empty() {
    let state = AppState::new();
    assert_eq!(state.db().get("1"), None);
    assert_eq!(state.cache().get("1"), None);
    assert_eq!(state.db().len(), 0);
    assert_eq!(state.cache().len(), 0);
}

#[test]
fn cache_never_outgrows_the_store() {
    let mut state = AppState::new();
    let ids = ["a", "b", "c", "d"];
    for (n, id) in ids.iter().enumerate() {
        state.store(Movie::new(id, "Stalker", 1979, true));
        for asked in ids {
            let found = state.fetch(asked).is_ok();
            assert_eq!(found, ids[..=n].contains(&asked));
            assert!(state.cache().len() <= state.db().len());
        }
        assert_eq!(state.db().len(), n + 1);
        assert_eq!(state.cache().len(), n + 1);
    }
}

#[test]
fn perform_makes_one_access_at_a_time() {
    let mut state = AppState::new();
    state.store(dune());

    let step = state.perform(ReadStep::begin(), "1");
    assert_eq!(step, ReadStep::ProbeStore);
    let step = state.perform(step, "1");
    assert_eq!(step, ReadStep::Populate(dune()));
    assert_eq!(state.cache().len(), 0);
    let step = state.perform(step, "1");
    assert_eq!(step, ReadStep::Found(dune()));
    assert_eq!(state.cache().get("1"), Some(dune()));

    let step = state.perform(ReadStep::begin(), "1");
    assert_eq!(step, ReadStep::Found(dune()));

    let step = state.perform(ReadStep::begin(), "2");
    assert_eq!(step, ReadStep::ProbeStore);
    let step = state.perform(step, "2");
    assert_eq!(step, ReadStep::NotFound);
    assert_eq!(state.cache().len(), 1);
}

#[test]
fn perform_on_a_finished_read_does_nothing() {
    let mut state = AppState::new();
    state.store(dune());

    assert_eq!(state.perform(ReadStep::NotFound, "1"), ReadStep::NotFound);
    assert_eq!(state.perform(ReadStep::Found(dune_part_two()), "1"), ReadStep::Found(dune_part_two()));
    assert_eq!(state.cache().len(), 0);
    assert_eq!(state.db().get("1"), Some(dune()));
}

#[test]
fn reads_of_one_owner_may_interleave_with_writes() {
    let mut state = AppState::new();
    state.store(dune());

    let slow = state.perform(ReadStep::begin(), "1");
    let slow = state.perform(slow, "1");
    assert_eq!(slow, ReadStep::Populate(dune()));

    assert_eq!(state.store(dune_part_two()), Outcome::Updated);
    assert_eq!(state.store(Movie::new("2", "Arrival", 2016, true)), Outcome::Created);

    let slow = state.perform(slow, "1");
    assert_eq!(slow, ReadStep::Found(dune()));
    assert_eq!(state.fetch("1"), Ok(dune()));
    assert_eq!(state.db().get("1"), Some(dune_part_two()));
    assert_eq!(state.db().len(), 2);
    assert_eq!(state.cache().len(), 1);
}
