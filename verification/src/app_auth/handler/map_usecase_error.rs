use vstd::prelude::*;

use crate::app_auth::usecase::types::AuthUsecaseError;
use crate::response::error::{bad_request, is_bad_request, ResponseError};

verus! {

/// The answer a handler gives for an error of the authentication use case.
pub open spec fn auth_error_answer(err: AuthUsecaseError, r: ResponseError) -> bool {
    match err {
        AuthUsecaseError::WrongUsernameOrPassword => is_bad_request(r, "wrong username or password"@),
        AuthUsecaseError::DatabaseError => r == ResponseError::DatabaseError,
        AuthUsecaseError::InternalServerError => r == ResponseError::InternalServerError,
        AuthUsecaseError::EmailAlreadyExist => is_bad_request(r, "email already exist"@),
        AuthUsecaseError::UsernameAlreadyExist => is_bad_request(r, "username already exist"@),
    }
}

/// Maps an error of the authentication use case to the answer of the handler.
pub fn map_usecase_auth_error(err: AuthUsecaseError) -> (r: ResponseError)
    ensures
        auth_error_answer(err, r),
{
    match err {
        AuthUsecaseError::WrongUsernameOrPassword => bad_request("wrong username or password"),
        AuthUsecaseError::DatabaseError => ResponseError::DatabaseError,
        AuthUsecaseError::InternalServerError => ResponseError::InternalServerError,
        AuthUsecaseError::EmailAlreadyExist => bad_request("email already exist"),
        AuthUsecaseError::UsernameAlreadyExist => bad_request("username already exist"),
    }
}

} // verus!
