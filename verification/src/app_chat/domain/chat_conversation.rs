use vstd::prelude::*;

verus! {

/// A conversation of a user with the assistant. Ids are UUIDs as 128-bit numbers; times are
/// microseconds since the Unix epoch (UTC).
#[derive(Debug, Clone, PartialEq, Eq)]
pub struct Conversation {
    pub id: u128,
    pub user_id: u128,
    pub title: Option<String>,
    pub summary: Option<String>,
    pub created_at: i64,
    pub updated_at: i64,
}

} // verus!
