use vstd::prelude::*;

verus! {

/// An uploaded file and who uploaded it.
#[derive(Debug, Clone, PartialEq, Eq)]
pub struct UploadFileRequest {
    pub user_id: u128,
    pub original_filename: String,
    pub content_type: String,
    pub bytes: Vec<u8>,
}

/// The ways an upload can fail.
#[derive(Debug, Clone, PartialEq, Eq)]
pub enum UploadFileError {
    Minio(String),
    InvalidInput,
}

} // verus!
