pub use crate::error::embedder::EmbedError;
use vstd::prelude::*;

verus! {

/// The body of a request to an embedding provider: the model and the text.
#[derive(Debug, Clone, Copy, PartialEq, Eq)]
pub struct EmbeddingRequest<'a> {
    pub model: &'a str,
    pub input: &'a str,
}

} // verus!
