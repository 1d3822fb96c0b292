//! A verified repository for notification records.
//!
//! The crate holds the rules by which a notification service validates what
//! it is sent, talks to its store one transaction at a time, reads rows back
//! into records and turns results into replies. The store itself stays
//! outside: the rules see it only through the events that it answers with.
//! An in-memory table stands in for it wherever the repository has to run
//! without a database.

pub mod clock;
pub mod ident;
pub mod laws;
pub mod mapper;
pub mod model;
pub mod protocol;
pub mod repo;
pub mod routes;
pub mod store;
pub mod table;
