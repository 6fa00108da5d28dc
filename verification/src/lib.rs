//! Batch query execution and type-coercing serialization engine.
//!
//! Given an open database session and an ordered list of query strings, the
//! engine executes each query in order, classifies the result set's column
//! types, turns fetched rows into JSON-compatible keyed records, and produces
//! a per-query outcome (rows or error) so that one failing query never aborts
//! the rest of the batch.
//!
//! All decision logic is verified here. The blocking driver calls (prepare,
//! execute, describe, fetch, read a cell) happen outside the library: the
//! query executor is an explicit state machine that names the next driver
//! call to make, and consumes the call's reply as an event.

pub mod batch;
pub mod engine;
pub mod outcome;
pub mod record;
pub mod types;
