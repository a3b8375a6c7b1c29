//! Vulnerability and warning reports for a dependency lockfile.
//!
//! The advisory database and the lockfile are owned by the caller: the caller
//! runs the queries that [`report::Settings`] describes and hands the matches
//! to [`report::Report::generate`], which filters and groups them.

pub mod advisory;
pub mod query;
pub mod warnings;
pub mod report;
pub mod laws;
