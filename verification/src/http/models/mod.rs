pub mod auth;
pub mod requests;
pub mod responses;
