use vstd::prelude::*;

verus! {

/// The ways login and registration can fail.
#[derive(Debug, Clone, Copy, PartialEq, Eq)]
pub enum AuthUsecaseError {
    WrongUsernameOrPassword,
    DatabaseError,
    InternalServerError,
    EmailAlreadyExist,
    UsernameAlreadyExist,
}

} // verus!
