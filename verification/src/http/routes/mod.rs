//! What each route computes between reading the stores and answering.

pub mod auth;
pub mod messages;
pub mod stats;
pub mod users;
