use vstd::prelude::*;

verus! {

/// One message of a conversation; `role` is `user` or `assistant`. The id is a UUID as a
/// 128-bit number; the time is in microseconds since the Unix epoch (UTC).
#[derive(Debug, Clone, PartialEq, Eq)]
pub struct Message {
    pub id: u128,
    pub conversation_id: u128,
    pub role: String,
    pub content: String,
    pub created_at: i64,
}

} // verus!
