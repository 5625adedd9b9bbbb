use uuid::Uuid;
use vstd::prelude::*;

use crate::helper::text::utf8_len;
use crate::response::error::ResponseError;

verus! {

/// The UUID, as a 128-bit number, that `uuid::Uuid::parse_str` reads from the text, or
/// `None` when it rejects the text.
pub uninterp spec fn uuid_parse(text: Seq<char>) -> Option<u128>;

/// Reads a UUID. Trusted: calls `uuid::Uuid::parse_str` and takes the 128-bit value of the
/// result. The contract claims that the result is the crate's reading of the text, and the
/// length check that the parser makes first: it only accepts texts of 32 (simple),
/// 36 (hyphenated), 38 (braced) or 45 (URN) bytes.
#[verifier::external_body]
fn parse_uuid(text: &str) -> (r: Option<u128>)
    ensures
        r == uuid_parse(text@),
        r is Some ==> utf8_len(text@) == 32 || utf8_len(text@) == 36 || utf8_len(text@) == 38
            || utf8_len(text@) == 45,
{
    Uuid::parse_str(text).ok().map(|id| id.as_u128())
}

/// Reads the UUID in `text`, answering `err` when the text is not one; a text that is not
/// 32, 36, 38 or 45 bytes long is never one.
pub fn parse_id_or(text: &str, err: ResponseError) -> (r: Result<u128, ResponseError>)
    ensures
        r == match uuid_parse(text@) {
            Some(id) => Ok::<u128, ResponseError>(id),
            None => Err(err),
        },
        !(utf8_len(text@) == 32 || utf8_len(text@) == 36 || utf8_len(text@) == 38 || utf8_len(text@)
            == 45) ==> r == Err::<u128, ResponseError>(err),
{
    match parse_uuid(text) {
        Some(id) => Ok(id),
        None => Err(err),
    }
}

} // verus!
