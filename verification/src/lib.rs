//! An in-memory user directory: list users, fetch one by id, create one.
//!
//! The directory is a table from numeric id to user record. Ids are assigned
//! from the record count, so the key set is always exactly `1..=count`.

pub mod decimal;
pub mod store;
pub mod user;
