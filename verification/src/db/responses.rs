//! Narrow reads of the user table.

use vstd::prelude::*;

verus! {

#[derive(Debug, Clone, PartialEq, Eq)]
pub struct UserProfile {
    pub username: String,
}

#[derive(Debug, Clone, PartialEq, Eq)]
pub struct UserLogin {
    pub username: String,
}

} // verus!
