use vstd::prelude::*;

verus! {

/// What a user sees of their own account.
#[derive(Debug, Clone, PartialEq, Eq)]
pub struct Profile {
    pub id: String,
    pub name: String,
    pub username: String,
    pub email: String,
    pub photo_profile: Option<String>,
    pub phone_number: Option<String>,
}

} // verus!
