use vstd::prelude::*;

use crate::helper::id::{parse_id_or, uuid_parse};
use crate::response::error::ResponseError;

verus! {

/// The id of the user whose token it is, read from the token's subject; an unreadable one
/// is unauthorized. The chat request reads its user the same way.
pub fn claims_user_id(subject: &str) -> (r: Result<u128, ResponseError>)
    ensures
        r == match uuid_parse(subject@) {
            Some(id) => Ok::<u128, ResponseError>(id),
            None => Err(ResponseError::Unauthorized),
        },
{
    parse_id_or(subject, ResponseError::Unauthorized)
}

} // verus!
