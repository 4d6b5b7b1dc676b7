//! The rules of registration.

use crate::config::CentaureissiConfig;
use crate::http::errors::CentaureissiError;
use vstd::prelude::*;

verus! {

/// Whether the instance takes new users; the error to answer with where it
/// does not.
pub fn registration_open(config: &CentaureissiConfig) -> (result: Result<(), CentaureissiError>)
    ensures
        config.disable_registration <==> result matches Err(
            CentaureissiError::RegistrationDisabled(),
        ),
        !config.disable_registration <==> result is Ok,
{
    if config.disable_registration {
        Err(CentaureissiError::RegistrationDisabled())
    } else {
        Ok(())
    }
}

/// The error for a user that could not be inserted: the name is taken where
/// the store refused the row, any other failure is the store's own.
pub fn registration_failure(refused_by_constraint: bool) -> (error: CentaureissiError)
    ensures
        refused_by_constraint ==> error matches CentaureissiError::UserExistsError(),
        !refused_by_constraint ==> error matches CentaureissiError::RelationalDatabaseError(),
{
    if refused_by_constraint {
        CentaureissiError::UserExistsError()
    } else {
        CentaureissiError::RelationalDatabaseError()
    }
}

} // verus!
