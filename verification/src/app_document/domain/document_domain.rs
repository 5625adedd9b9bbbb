use vstd::prelude::*;

verus! {

/// An uploaded document: its owner, the name it was uploaded under, where the file is kept
/// in the object store and its processing status. Ids are UUIDs as 128-bit numbers; times
/// are microseconds since the Unix epoch (UTC).
#[derive(Debug, Clone, PartialEq, Eq)]
pub struct Document {
    pub id: u128,
    pub user_id: u128,
    pub original_filename: String,
    pub storage_path: String,
    pub status: String,
    pub created_at: i64,
    pub updated_at: i64,
}

} // verus!
