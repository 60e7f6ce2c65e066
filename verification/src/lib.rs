//! A data-access layer between domain objects and a relational backend:
//! records are read out of returned rows, changes are validated and compiled
//! into inserts, reads are rendered from filter descriptions, and related
//! records are loaded lazily and at most once.
//!
//! Nothing here talks to a backend. Each operation is split around its one
//! round trip: the library says which statement to run and takes what came
//! back.
//!
//! The modules are declared bottom up, each after those it builds on.

pub mod value;
pub mod error;
pub mod statement;
pub mod row;
pub mod changeset;
pub mod attributes;
pub mod assocs;
pub mod repo;
pub mod entities;
pub mod api_error;
