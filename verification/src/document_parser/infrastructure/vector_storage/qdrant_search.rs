use vstd::prelude::*;

use crate::document_parser::infrastructure::vector_storage::qdrant_upsert::QDRANT_COLLECTIONS_URL;
use crate::error::pdf_parser::PdfParserError;
use crate::helper::text::{decimal, push_decimal};

verus! {

/// The endpoint that searches a collection by vector.
pub fn qdrant_search_url(collection: &str) -> (r: String)
    ensures
        r@ == QDRANT_COLLECTIONS_URL@ + collection@ + "/points/search"@,
{
    let mut s = String::from_str(QDRANT_COLLECTIONS_URL);
    s.append(collection);
    s.append("/points/search");
    s
}

/// The error of a failed search at the given step (1: sending, 2: an error status,
/// 3: reading the answer) with the failure's text.
pub fn qdrant_search_error(step: usize, detail: &str) -> (r: PdfParserError)
    ensures
        r matches PdfParserError::UnknownError(m) && m@ == "qdrant_search "@ + decimal(step as nat) + ": "@
            + detail@,
{
    let mut s = String::from_str("qdrant_search ");
    push_decimal(&mut s, step);
    s.append(": ");
    s.append(detail);
    PdfParserError::UnknownError(s)
}

} // verus!
