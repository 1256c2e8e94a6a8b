//! A read-through, cache-aside layer in front of an authoritative in-memory
//! store of movie records.
//!
//! * [`movie`] holds the record type and its mathematical view.
//! * [`model`] states, over maps of record views, what every operation means.
//! * [`store`] and [`cache`] are the two containers.
//! * [`read_through`] is the read protocol as a step machine, to be driven by
//!   a caller that guards each container with a lock of its own.
//! * [`state`] composes both containers into one sequential service.
//! * [`history`] and [`interleaving`] hold the theorems about sequences of
//!   operations and about interleavings of atomic container actions.

pub mod cache;
pub mod history;
pub mod interleaving;
pub mod model;
pub mod movie;
pub mod read_through;
pub mod state;
pub mod store;
