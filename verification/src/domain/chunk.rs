use vstd::prelude::*;

verus! {

/// A piece of a document's text, with the page it was read from (counting from 1),
/// the document it belongs to and its position among the document's pieces.
#[derive(Debug, Clone, PartialEq, Eq)]
pub struct Chunk {
    pub text: String,
    pub page: usize,
    pub source: String,
    pub index: usize,
}

} // verus!
