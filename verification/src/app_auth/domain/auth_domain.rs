use vstd::prelude::*;

verus! {

/// A registered user as the user store keeps it; `id` is the user's UUID as a 128-bit number.
#[derive(Debug, Clone, PartialEq, Eq)]
pub struct User {
    pub id: u128,
    pub name: String,
    pub username: String,
    pub email: String,
    pub encrypted_password: String,
    pub phone_number: Option<String>,
    pub photo_profile: Option<String>,
    pub token_version: Option<i32>,
}

} // verus!
