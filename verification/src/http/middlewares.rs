//! Why a request is turned away before it reaches a route.

use crate::http::errors::{CentaureissiError, FORBIDDEN, UNAUTHORIZED};
use vstd::prelude::*;
use vstd::string::StringExecFns;

verus! {

/// What can be wrong with the credentials of a request.
#[derive(Debug, Clone, Copy, PartialEq, Eq, Structural)]
pub enum AuthFailure {
    /// The request carries no authorization header.
    MissingHeader,
    /// The authorization header is no text.
    UnreadableHeader,
    /// The token is not one that this server signed for this audience, or
    /// it has expired.
    InvalidToken,
    /// The token names a user that the archive does not know.
    UnknownUser,
    /// A new token could not be signed.
    SigningFailed,
}

/// Whether `error` is the authentication error with this message and
/// status.
pub open spec fn is_auth_error(error: CentaureissiError, message: Seq<char>, status: u16) -> bool {
    error matches CentaureissiError::AuthError(text, code) && text@ == message && code == status
}

/// The error that answers a failure of authentication.
pub open spec fn answers(failure: AuthFailure, error: CentaureissiError) -> bool {
    match failure {
        AuthFailure::MissingHeader => is_auth_error(
            error,
            "Please add the JWT token to the header"@,
            FORBIDDEN,
        ),
        AuthFailure::UnreadableHeader => is_auth_error(
            error,
            "Empty header is not allowed"@,
            FORBIDDEN,
        ),
        AuthFailure::InvalidToken => is_auth_error(error, "Unable to parse token"@, UNAUTHORIZED),
        AuthFailure::UnknownUser => error matches CentaureissiError::IncorrectPasswordError(),
        AuthFailure::SigningFailed => is_auth_error(error, "Failure to decode token"@, FORBIDDEN),
    }
}

/// The error that answers a failure of authentication.
pub fn rejection(failure: AuthFailure) -> (error: CentaureissiError)
    ensures
        answers(failure, error),
{
    match failure {
        AuthFailure::MissingHeader => CentaureissiError::AuthError(
            String::from_str("Please add the JWT token to the header"),
            FORBIDDEN,
        ),
        AuthFailure::UnreadableHeader => CentaureissiError::AuthError(
            String::from_str("Empty header is not allowed"),
            FORBIDDEN,
        ),
        AuthFailure::InvalidToken => CentaureissiError::AuthError(
            String::from_str("Unable to parse token"),
            UNAUTHORIZED,
        ),
        AuthFailure::UnknownUser => CentaureissiError::IncorrectPasswordError(),
        AuthFailure::SigningFailed => CentaureissiError::AuthError(
            String::from_str("Failure to decode token"),
            FORBIDDEN,
        ),
    }
}

} // verus!
