//! The record kept by the service.

use vstd::prelude::*;
use vstd::std_specs::cmp::PartialEqSpecImpl;

verus! {

/// A movie record: a closed, fixed-shape value that is always written and
/// read as a whole.
#[derive(Debug)]
pub struct Movie {
    /// Opaque identifier, the key under which the record is kept.
    pub id: String,
    /// Display name.
    pub name: String,
    /// Year of release.
    pub year: u16,
    /// Whether the movie was any good.
    pub was_good: bool,
}

/// What a [`Movie`] is, mathematically: its strings as sequences of
/// characters, its other fields as they are.
pub struct MovieView {
    pub id: Seq<char>,
    pub name: Seq<char>,
    pub year: u16,
    pub was_good: bool,
}

impl View for Movie {
    type V = MovieView;

    open spec fn view(&self) -> MovieView {
        MovieView { id: self.id@, name: self.name@, year: self.year, was_good: self.was_good }
    }
}

/// The view of an optional record.
pub open spec fn view_of(record: Option<Movie>) -> Option<MovieView> {
    match record {
        Some(m) => Some(m@),
        None => None,
    }
}

impl Movie {
    /// Builds a record from string slices.
    pub fn new(id: &str, name: &str, year: u16, was_good: bool) -> (m: Movie)
        ensures
            m@ == (MovieView { id: id@, name: name@, year, was_good }),
    {
        Movie { id: id.to_owned(), name: name.to_owned(), year, was_good }
    }
}

impl Clone for Movie {
    /// A copy with the same view, field by field.
    fn clone(&self) -> (copy: Movie)
        ensures
            copy@ == self@,
    {
        Movie {
            id: self.id.clone(),
            name: self.name.clone(),
            year: self.year,
            was_good: self.was_good,
        }
    }
}

impl PartialEq for Movie {
    /// Two records are equal when all four fields are.
    fn eq(&self, other: &Movie) -> (equal: bool) {
        self.id == other.id && self.name == other.name && self.year == other.year
            && self.was_good == other.was_good
    }
}

impl PartialEqSpecImpl for Movie {
    open spec fn obeys_eq_spec() -> bool {
        true
    }

    open spec fn eq_spec(&self, other: &Movie) -> bool {
        self@ == other@
    }
}

impl Eq for Movie {

}

} // verus!
