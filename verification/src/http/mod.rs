//! Plain request and response shapes, the error taxonomy and the computing
//! part of each route of the HTTP surface. Transport itself is not part of
//! this library.

pub mod errors;
pub mod middlewares;
pub mod models;
pub mod routes;
