//! The record shapes of the application: participants, requests for
//! comments, votes and motions.
//!
//! The modules are declared in the order in which the shapes build on each
//! other: a vote holds motions, a request for comments holds votes.

pub mod participants;
pub mod motion;
pub mod vote;
pub mod rfc;
