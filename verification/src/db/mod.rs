//! Rows of the relational metadata store, as plain values.

pub mod models;
pub mod requests;
pub mod responses;
