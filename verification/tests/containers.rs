//! The two containers on their own, and the record type.

use movie_cache::cache::Cache;
use movie_cache::model::Outcome;
use movie_cache::movie::Movie;
use movie_cache::store::Store;

#[test]
fn store_get_on_empty_is_none() {
    let store = Store::new();
    assert_eq!(store.get("1"), None);
    assert_eq!(store.get(""), None);
}

#[test]
fn store_put_reports_created_then_updated() {
    let mut store = Store::new();
    assert_eq!(store.put(Movie::new("1", "Dune", 2021, true)), Outcome::Created);
    assert_eq!(store.put(Movie::new("1", "Dune", 2021, true)), Outcome::Updated);
    assert_eq!(store.put(Movie::new("1", "Dune Part Two", 2024, true)), Outcome::Updated);
    assert_eq!(store.put(Movie::new("2", "Dune Part Two", 2024, true)), Outcome::Created);
}

#[test]
fn store_get_returns_the_last_record_put() {
    let mut store = Store::new();
    store.put(Movie::new("1", "Dune", 2021, true));
    store.put(Movie::new("2", "Arrival", 2016, true));
    store.put(Movie::new("1", "Dune Part Two", 2024, false));

    assert_eq!(store.get("1"), Some(Movie::new("1", "Dune Part Two", 2024, false)));
    assert_eq!(store.get("2"), Some(Movie::new("2", "Arrival", 2016, true)));
    assert_eq!(store.get("3"), None);
}

#[test]
fn store_keeps_each_record_under_its_own_identifier() {
    let mut store = Store::new();
    store.put(Movie::new("x", "Alien", 1979, true));
    store.put(Movie::new("y", "Aliens", 1986, true));

    assert_eq!(store.get("x").unwrap().id, "x");
    assert_eq!(store.get("y").unwrap().id, "y");
    assert_eq!(store.get("Alien"), None);
}

#[test]
fn store_get_does_not_change_the_store() {
    let mut store = Store::new();
    store.put(Movie::new("1", "Dune", 2021, true));

    assert_eq!(store.get("2"), None);
    assert_eq!(store.get("1"), store.get("1"));
    assert_eq!(store.put(Movie::new("2", "Arrival", 2016, true)), Outcome::Created);
    assert_eq!(store.put(Movie::new("1", "Dune", 2021, true)), Outcome::Updated);
}

#[test]
fn store_counts_identifiers_not_writes() {
    let mut store = Store::new();
    assert_eq!(store.len(), 0);
    store.put(Movie::new("1", "Dune", 2021, true));
    assert_eq!(store.len(), 1);
    store.put(Movie::new("1", "Dune Part Two", 2024, true));
    assert_eq!(store.len(), 1);
    store.put(Movie::new("2", "Dune Part Two", 2024, true));
    assert_eq!(store.len(), 2);
}

#[test]
fn cache_counts_identifiers_not_copies() {
    let mut cache = Cache::new();
    assert_eq!(cache.len(), 0);
    cache.populate(String::from("1"), Movie::new("1", "Dune", 2021, true));
    cache.populate(String::from("1"), Movie::new("1", "Dune", 2021, true));
    assert_eq!(cache.len(), 1);
    cache.populate(String::from("2"), Movie::new("1", "Dune", 2021, true));
    assert_eq!(cache.len(), 2);
}

#[test]
fn cache_get_on_empty_is_none() {
    let cache = Cache::new();
    assert_eq!(cache.get("1"), None);
}

#[test]
fn cache_populate_then_get() {
    let mut cache = Cache::new();
    cache.populate(String::from("1"), Movie::new("1", "Dune", 2021, true));

    assert_eq!(cache.get("1"), Some(Movie::new("1", "Dune", 2021, true)));
    assert_eq!(cache.get("2"), None);
}

#[test]
fn cache_populate_overwrites_the_copy() {
    let mut cache = Cache::new();
    cache.populate(String::from("1"), Movie::new("1", "Dune", 2021, true));
    cache.populate(String::from("1"), Movie::new("1", "Dune Part Two", 2024, true));

    assert_eq!(cache.get("1"), Some(Movie::new("1", "Dune Part Two", 2024, true)));
}

#[test]
fn cache_files_the_copy_under_the_identifier_given() {
    let mut cache = Cache::new();
    cache.populate(String::from("alias"), Movie::new("1", "Dune", 2021, true));

    assert_eq!(cache.get("alias"), Some(Movie::new("1", "Dune", 2021, true)));
    assert_eq!(cache.get("1"), None);
}

#[test]
fn movie_new_fills_the_four_fields() {
    let movie = Movie::new("1", "Dune", 2021, true);
    assert_eq!(movie.id, "1");
    assert_eq!(movie.name, "Dune");
    assert_eq!(movie.year, 2021);
    assert!(movie.was_good);
}

#[test]
fn movie_clone_is_equal_and_independent() {
    let movie = Movie::new("1", "Dune", 2021, true);
    let mut copy = movie.clone();
    assert_eq!(copy, movie);

    copy.name.push_str(" Part Two");
    assert_eq!(movie.name, "Dune");
    assert_ne!(copy, movie);
}

#[test]
fn movie_equality_looks_at_every_field() {
    let movie = Movie::new("1", "Dune", 2021, true);
    assert_eq!(movie, Movie::new("1", "Dune", 2021, true));
    assert_ne!(movie, Movie::new("2", "Dune", 2021, true));
    assert_ne!(movie, Movie::new("1", "Dune ", 2021, true));
    assert_ne!(movie, Movie::new("1", "Dune", 2020, true));
    assert_ne!(movie, Movie::new("1", "Dune", 2021, false));
}
