use vstd::prelude::*;

use crate::helper::id::{parse_id_or, uuid_parse};
use crate::request::pagination::{is_page_request, page_in_range, page_request, PaginationRequest};
use crate::response::error::{bad_request, is_bad_request, ResponseError};

verus! {

/// The paging of a request for the user's documents: page 1 and 10 per page by default,
/// oldest first unless a sort is given.
pub fn documents_page_request(q: PaginationRequest) -> (r: PaginationRequest)
    requires
        page_in_range(q, Some(10)),
    ensures
        is_page_request(r, q, Some(10), "created_at"@),
{
    page_request(q, Some(10), "created_at")
}

/// The ids a request for one document names: the user's (from the token's subject; an
/// unreadable one is an internal error) and the document's (from the path; an unreadable one
/// is "invalid data id").
pub fn document_ids(subject: &str, id: &str) -> (r: Result<(u128, u128), ResponseError>)
    ensures
        match (uuid_parse(subject@), uuid_parse(id@)) {
            (None, _) => r == Err::<(u128, u128), ResponseError>(ResponseError::InternalServerError),
            (Some(_), None) => r matches Err(e) && is_bad_request(e, "invalid data id"@),
            (Some(u), Some(d)) => r == Ok::<(u128, u128), ResponseError>((u, d)),
        },
{
    let user_id = match parse_id_or(subject, ResponseError::InternalServerError) {
        Ok(u) => u,
        Err(e) => return Err(e),
    };
    let doc_id = match parse_id_or(id, bad_request("invalid data id")) {
        Ok(d) => d,
        Err(e) => return Err(e),
    };
    Ok((user_id, doc_id))
}

/// The name and the content type of an uploaded file field, with the defaults the upload
/// uses when the form leaves them out: `file` and `application/octet-stream`.
pub fn upload_file_fields(file_name: Option<&str>, content_type: Option<&str>) -> (r: (String, String))
    ensures
        r.0@ == match file_name {
            Some(n) => n@,
            None => "file"@,
        },
        r.1@ == match content_type {
            Some(c) => c@,
            None => "application/octet-stream"@,
        },
{
    let name = match file_name {
        Some(n) => String::from_str(n),
        None => String::from_str("file"),
    };
    let kind = match content_type {
        Some(c) => String::from_str(c),
        None => String::from_str("application/octet-stream"),
    };
    (name, kind)
}

/// The uploader's id, read from the token's subject; an unreadable one is an invalid token.
pub fn uploader_id(subject: &str) -> (r: Result<u128, ResponseError>)
    ensures
        r == match uuid_parse(subject@) {
            Some(id) => Ok::<u128, ResponseError>(id),
            None => Err(ResponseError::InvalidToken),
        },
{
    parse_id_or(subject, ResponseError::InvalidToken)
}

} // verus!
