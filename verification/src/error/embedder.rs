use vstd::prelude::*;

verus! {

/// The ways embedding a text can fail.
#[derive(Debug, Clone, PartialEq, Eq)]
pub enum EmbedError {
    /// The text to embed is empty or only white space.
    EmptyInput,
    /// The request to the provider could not be made.
    Transport(String),
    /// The provider answered with an error status (and this body).
    Provider { code: Option<u16>, message: String },
    /// The provider's answer is not what was expected.
    InvalidResponse(String),
    /// The provider's quota is used up.
    RateLimited,
    Unknown(String),
}

} // verus!
