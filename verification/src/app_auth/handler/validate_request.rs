use vstd::prelude::*;

use crate::app_auth::handler::types::{LoginRequest, RegisterRequest};
use crate::response::error::{bad_request, is_bad_request, ResponseError};

verus! {

/// What is wrong with a login request, checked in this order: the first empty field.
pub open spec fn login_request_problem(req: LoginRequest) -> Option<Seq<char>> {
    if req.username@.len() == 0 {
        Some("username is required"@)
    } else if req.password@.len() == 0 {
        Some("password is required"@)
    } else {
        None
    }
}

/// What is wrong with a registration request, checked in this order: an empty field,
/// then a password that its repetition does not match.
pub open spec fn register_request_problem(req: RegisterRequest) -> Option<Seq<char>> {
    if req.name@.len() == 0 {
        Some("name is required"@)
    } else if req.username@.len() == 0 {
        Some("username is required"@)
    } else if req.email@.len() == 0 {
        Some("email is required"@)
    } else if req.password@.len() == 0 {
        Some("password is required"@)
    } else if req.re_password@.len() == 0 {
        Some("re_password is required"@)
    } else if req.password@ != req.re_password@ {
        Some("password and re_password are not match"@)
    } else {
        None
    }
}

/// `r` answers `problem`: `Ok` when there is none, else a `BadRequest` with its message.
pub open spec fn answers_problem(r: Result<(), ResponseError>, problem: Option<Seq<char>>) -> bool {
    match problem {
        Some(m) => r matches Err(e) && is_bad_request(e, m),
        None => r is Ok,
    }
}

/// Checks that the username and the password of a login request are filled in.
pub fn validate_login_request(req: &LoginRequest) -> (r: Result<(), ResponseError>)
    ensures
        answers_problem(r, login_request_problem(*req)),
{
    if req.username.as_str().is_empty() {
        return Err(bad_request("username is required"));
    }
    if req.password.as_str().is_empty() {
        return Err(bad_request("password is required"));
    }
    Ok(())
}

/// Checks that every field of a registration request is filled in and that the password
/// and its repetition match.
pub fn validate_register_request(req: &RegisterRequest) -> (r: Result<(), ResponseError>)
    ensures
        answers_problem(r, register_request_problem(*req)),
{
    if req.name.as_str().is_empty() {
        return Err(bad_request("name is required"));
    }
    if req.username.as_str().is_empty() {
        return Err(bad_request("username is required"));
    }
    if req.email.as_str().is_empty() {
        return Err(bad_request("email is required"));
    }
    if req.password.as_str().is_empty() {
        return Err(bad_request("password is required"));
    }
    if req.re_password.as_str().is_empty() {
        return Err(bad_request("re_password is required"));
    }
    if req.password != req.re_password {
        return Err(bad_request("password and re_password are not match"));
    }
    Ok(())
}

/// Law: a registration request is accepted exactly when every field is filled in and the
/// repeated password is the same text as the password, character for character; when the
/// fields are filled in and the two differ, the answer names the mismatch.
pub proof fn law_register_request_needs_matching_passwords(req: RegisterRequest)
    ensures
        register_request_problem(req) is None <==> (req.name@.len() > 0 && req.username@.len() > 0
            && req.email@.len() > 0 && req.password@.len() > 0 && req.re_password@.len() > 0
            && req.password@ =~= req.re_password@),
        (req.name@.len() > 0 && req.username@.len() > 0 && req.email@.len() > 0 && req.password@.len() > 0
            && req.re_password@.len() > 0 && !(req.password@ =~= req.re_password@)) ==> register_request_problem(req)
            == Some("password and re_password are not match"@),
{
}

} // verus!
