use vstd::prelude::*;

verus! {

/// The errors an HTTP handler answers with; the ones that carry text carry the message
/// shown to the client.
#[derive(Debug, Clone, PartialEq, Eq)]
pub enum ResponseError {
    BadRequest(String),
    NotFound(String),
    Unauthorized,
    InvalidToken,
    DatabaseError,
    InternalServerError,
}

/// `r` is a `BadRequest` whose message is `msg`.
pub open spec fn is_bad_request(r: ResponseError, msg: Seq<char>) -> bool {
    r matches ResponseError::BadRequest(m) && m@ == msg
}

/// `r` is a `NotFound` whose message is `msg`.
pub open spec fn is_not_found(r: ResponseError, msg: Seq<char>) -> bool {
    r matches ResponseError::NotFound(m) && m@ == msg
}

/// A `BadRequest` with the given message.
pub fn bad_request(msg: &str) -> (r: ResponseError)
    ensures
        is_bad_request(r, msg@),
{
    ResponseError::BadRequest(String::from_str(msg))
}

/// A `NotFound` with the given message.
pub fn not_found(msg: &str) -> (r: ResponseError)
    ensures
        is_not_found(r, msg@),
{
    ResponseError::NotFound(String::from_str(msg))
}

} // verus!
