//! A small task service: one relational table of tasks behind four
//! operations (list, create, update, delete), each of which turns a storage
//! outcome into a JSON response envelope with an HTTP status code.
//!
//! The storage layer itself (a connection pool and a network listener) lives
//! outside this crate; here stand the table model, the SQL statement texts,
//! the envelope rendering and the per-operation response decisions, all with
//! contracts.

pub mod task;
pub mod json;
pub mod store;
pub mod response;
pub mod handlers;
pub mod sql;
