//! The error taxonomy of the archive and how each error shows to a caller.

use vstd::prelude::*;
use vstd::string::StringExecFns;

verus! {

/// Every way in which a request to the archive can fail.
#[derive(Debug, Clone, PartialEq, Eq)]
pub enum CentaureissiError {
    /// The password hasher refused its input; carries its message.
    Argon2Error(String),
    IncorrectPasswordError(),
    UserExistsError(),
    UserNotFoundError(),
    /// A store failed; carries which one and what it said.
    InternalServerError(String),
    /// Authentication failed; carries the message and the status to answer
    /// with.
    AuthError(String, u16),
    UnimplementedError(),
    /// The upload could not be read; carries what the transport said.
    InvalidDataError(String),
    /// The uploaded bytes are no email.
    InvalidEmailContentsError(String),
    RelationalDatabaseError(),
    BlobDatabaseError(),
    RegistrationDisabled(),
    MessageNotFound(),
    MessageError(),
}

pub const BAD_REQUEST: u16 = 400;

pub const UNAUTHORIZED: u16 = 401;

pub const FORBIDDEN: u16 = 403;

pub const NOT_FOUND: u16 = 404;

pub const INTERNAL_SERVER_ERROR: u16 = 500;

impl CentaureissiError {
    /// The HTTP status that answers this error.
    pub open spec fn status(&self) -> u16 {
        match self {
            CentaureissiError::Argon2Error(_) => BAD_REQUEST,
            CentaureissiError::IncorrectPasswordError() => UNAUTHORIZED,
            CentaureissiError::UserExistsError() => BAD_REQUEST,
            CentaureissiError::UserNotFoundError() => BAD_REQUEST,
            CentaureissiError::InternalServerError(_) => INTERNAL_SERVER_ERROR,
            CentaureissiError::AuthError(_, status) => *status,
            CentaureissiError::UnimplementedError() => INTERNAL_SERVER_ERROR,
            CentaureissiError::InvalidDataError(_) => BAD_REQUEST,
            CentaureissiError::InvalidEmailContentsError(_) => BAD_REQUEST,
            CentaureissiError::RelationalDatabaseError() => INTERNAL_SERVER_ERROR,
            CentaureissiError::BlobDatabaseError() => INTERNAL_SERVER_ERROR,
            CentaureissiError::RegistrationDisabled() => BAD_REQUEST,
            CentaureissiError::MessageNotFound() => NOT_FOUND,
            CentaureissiError::MessageError() => BAD_REQUEST,
        }
    }

    /// The message that answers this error.
    pub open spec fn message(&self) -> Seq<char> {
        match self {
            CentaureissiError::Argon2Error(err) => err@,
            CentaureissiError::IncorrectPasswordError() => "Incorrect username or password"@,
            CentaureissiError::UserExistsError() => "User already exists"@,
            CentaureissiError::UserNotFoundError() => "User not found"@,
            CentaureissiError::InternalServerError(err) => "Something happened: "@ + err@,
            CentaureissiError::AuthError(message, _) => message@,
            CentaureissiError::UnimplementedError() => "API unimplemented!"@,
            CentaureissiError::InvalidDataError(err) => "Invalid email data: "@ + err@,
            CentaureissiError::InvalidEmailContentsError(err) => "Invalid email contents: "@
                + err@,
            CentaureissiError::RelationalDatabaseError() => "Relational database error"@,
            CentaureissiError::BlobDatabaseError() => "Blob database error"@,
            CentaureissiError::RegistrationDisabled() => "Registration is disabled"@,
            CentaureissiError::MessageNotFound() => "Message not found"@,
            CentaureissiError::MessageError() => "Message is unreadable"@,
        }
    }

    /// The HTTP status that answers this error.
    pub fn status_code(&self) -> (status: u16)
        ensures
            status == self.status(),
    {
        match self {
            CentaureissiError::Argon2Error(_) => BAD_REQUEST,
            CentaureissiError::IncorrectPasswordError() => UNAUTHORIZED,
            CentaureissiError::UserExistsError() => BAD_REQUEST,
            CentaureissiError::UserNotFoundError() => BAD_REQUEST,
            CentaureissiError::InternalServerError(_) => INTERNAL_SERVER_ERROR,
            CentaureissiError::AuthError(_, status) => *status,
            CentaureissiError::UnimplementedError() => INTERNAL_SERVER_ERROR,
            CentaureissiError::InvalidDataError(_) => BAD_REQUEST,
            CentaureissiError::InvalidEmailContentsError(_) => BAD_REQUEST,
            CentaureissiError::RelationalDatabaseError() => INTERNAL_SERVER_ERROR,
            CentaureissiError::BlobDatabaseError() => INTERNAL_SERVER_ERROR,
            CentaureissiError::RegistrationDisabled() => BAD_REQUEST,
            CentaureissiError::MessageNotFound() => NOT_FOUND,
            CentaureissiError::MessageError() => BAD_REQUEST,
        }
    }

    /// The message that answers this error.
    pub fn response_message(&self) -> (text: String)
        ensures
            text@ == self.message(),
    {
        match self {
            CentaureissiError::Argon2Error(err) => err.clone(),
            CentaureissiError::IncorrectPasswordError() => String::from_str(
                "Incorrect username or password",
            ),
            CentaureissiError::UserExistsError() => String::from_str("User already exists"),
            CentaureissiError::UserNotFoundError() => String::from_str("User not found"),
            CentaureissiError::InternalServerError(err) => String::from_str(
                "Something happened: ",
            ).concat(err.as_str()),
            CentaureissiError::AuthError(message, _) => message.clone(),
            CentaureissiError::UnimplementedError() => String::from_str("API unimplemented!"),
            CentaureissiError::InvalidDataError(err) => String::from_str(
                "Invalid email data: ",
            ).concat(err.as_str()),
            CentaureissiError::InvalidEmailContentsError(err) => String::from_str(
                "Invalid email contents: ",
            ).concat(err.as_str()),
            CentaureissiError::RelationalDatabaseError() => String::from_str(
                "Relational database error",
            ),
            CentaureissiError::BlobDatabaseError() => String::from_str("Blob database error"),
            CentaureissiError::RegistrationDisabled() => String::from_str(
                "Registration is disabled",
            ),
            CentaureissiError::MessageNotFound() => String::from_str("Message not found"),
            CentaureissiError::MessageError() => String::from_str("Message is unreadable"),
        }
    }

    /// The error for a failure of the blob store, which said `detail`.
    pub fn blob_storage(detail: &str) -> (error: CentaureissiError)
        ensures
            error matches CentaureissiError::InternalServerError(text) && text@
                == "Blob storage error: "@ + detail@,
    {
        CentaureissiError::InternalServerError(
            String::from_str("Blob storage error: ").concat(detail),
        )
    }

    /// The error for a failure of the search index, which said `detail`.
    pub fn search(detail: &str) -> (error: CentaureissiError)
        ensures
            error matches CentaureissiError::InternalServerError(text) && text@
                == "Search error: "@ + detail@,
    {
        CentaureissiError::InternalServerError(String::from_str("Search error: ").concat(detail))
    }
}

} // verus!
