use vstd::prelude::*;

use crate::app_profile::domain::profile_domain::Profile;
use crate::response::error::{is_not_found, not_found, ResponseError};

verus! {

/// The answer to a profile request given the lookup of the profile: a store failure is a
/// database error, a missing profile is "profile not found".
pub fn profile_answer(found: Result<Option<Profile>, ()>) -> (r: Result<Profile, ResponseError>)
    ensures
        match found {
            Err(_) => r == Err::<Profile, ResponseError>(ResponseError::DatabaseError),
            Ok(None) => r matches Err(e) && is_not_found(e, "profile not found"@),
            Ok(Some(p)) => r == Ok::<Profile, ResponseError>(p),
        },
{
    match found {
        Err(_) => Err(ResponseError::DatabaseError),
        Ok(None) => Err(not_found("profile not found")),
        Ok(Some(p)) => Ok(p),
    }
}

} // verus!
