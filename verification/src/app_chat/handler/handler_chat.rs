use vstd::prelude::*;

use crate::helper::id::{parse_id_or, uuid_parse};
use crate::request::pagination::{is_page_request, page_in_range, page_request, PaginationRequest};
use crate::response::error::ResponseError;

verus! {

/// The paging of a request for the user's conversations: page 1 by default, no page size
/// (and no offset) unless one is given, newest first unless a sort is given.
pub fn chats_page_request(q: PaginationRequest) -> (r: PaginationRequest)
    requires
        page_in_range(q, None),
    ensures
        is_page_request(r, q, None, "-created_at"@),
{
    page_request(q, None, "-created_at")
}

/// The paging of a request for a conversation's messages: page 1 and 15 per page by
/// default, newest first unless a sort is given.
pub fn chat_messages_page_request(q: PaginationRequest) -> (r: PaginationRequest)
    requires
        page_in_range(q, Some(15)),
    ensures
        is_page_request(r, q, Some(15), "-created_at"@),
{
    page_request(q, Some(15), "-created_at")
}

/// The user a listing request is for, read from the token's subject; an unreadable one is an
/// internal error.
pub fn listing_user_id(subject: &str) -> (r: Result<u128, ResponseError>)
    ensures
        r == match uuid_parse(subject@) {
            Some(id) => Ok::<u128, ResponseError>(id),
            None => Err(ResponseError::InternalServerError),
        },
{
    parse_id_or(subject, ResponseError::InternalServerError)
}

/// The user and the conversation a request for messages names, from the token's subject and
/// the path; either one unreadable is an internal error.
pub fn conversation_ids(subject: &str, id: &str) -> (r: Result<(u128, u128), ResponseError>)
    ensures
        r == match (uuid_parse(subject@), uuid_parse(id@)) {
            (Some(u), Some(c)) => Ok::<(u128, u128), ResponseError>((u, c)),
            _ => Err(ResponseError::InternalServerError),
        },
{
    let user_id = match parse_id_or(subject, ResponseError::InternalServerError) {
        Ok(u) => u,
        Err(e) => return Err(e),
    };
    let conversation_id = match parse_id_or(id, ResponseError::InternalServerError) {
        Ok(c) => c,
        Err(e) => return Err(e),
    };
    Ok((user_id, conversation_id))
}

} // verus!
