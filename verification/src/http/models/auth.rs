//! Claims carried by the access tokens of the HTTP surface.

use vstd::prelude::*;

verus! {

/// Claims data of one signed token.
#[derive(Debug, Clone, PartialEq, Eq)]
pub struct Claims {
    /// Expiry time of the token
    pub exp: usize,
    /// Issued at time of the token
    pub iat: usize,
    /// Name of the user the token was issued to
    pub name: String,
    /// Issued by
    pub iss: String,
    /// User ID
    pub sub: i32,
    /// Audience
    pub aud: String,
}

} // verus!
