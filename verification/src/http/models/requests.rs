//! Bodies and query strings that the HTTP surface accepts.

use vstd::prelude::*;

verus! {

#[derive(Debug, Clone, PartialEq, Eq)]
pub struct NewUserRequest {
    pub username: String,
    pub password: String,
}

#[derive(Debug, Clone, PartialEq, Eq)]
pub struct LoginRequest {
    pub username: String,
    pub password: String,
}

#[derive(Debug, Clone, PartialEq, Eq)]
pub struct SignPathRequest {
    pub path: String,
}

#[derive(Debug, Clone, PartialEq, Eq)]
pub struct UserUpdateRequest {
    pub username: String,
}

#[derive(Debug, Clone, PartialEq, Eq)]
pub struct UserUpdatePasswordRequest {
    pub old_password: String,
    pub new_password: String,
}

/// A full-text query with 1-based pagination. Missing or zero values fall
/// back to the defaults when the page window is computed.
#[derive(Debug, Clone, PartialEq, Eq)]
pub struct SearchRequest {
    pub q: String,
    pub page: Option<usize>,
    pub per_page: Option<usize>,
}

#[derive(Debug, Clone, PartialEq, Eq)]
pub struct DownloadTokenRequest {
    pub token: String,
}

} // verus!
