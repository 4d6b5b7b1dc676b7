//! The full-text index as this library sees it: its fixed schema, the
//! documents it holds and the paging of its answers.

pub mod message;
pub mod paging;
pub mod schema;
