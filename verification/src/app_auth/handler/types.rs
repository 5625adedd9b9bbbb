use vstd::prelude::*;

verus! {

/// The body of a login request.
#[derive(Debug, Clone, PartialEq, Eq)]
pub struct LoginRequest {
    pub username: String,
    pub password: String,
}

/// The body of a registration request; `re_password` repeats the password.
#[derive(Debug, Clone, PartialEq, Eq)]
pub struct RegisterRequest {
    pub name: String,
    pub username: String,
    pub email: String,
    pub password: String,
    pub re_password: String,
}

} // verus!
