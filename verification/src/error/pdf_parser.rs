use vstd::prelude::*;

use crate::error::embedder::EmbedError;

verus! {

/// The errors of reading, embedding and storing documents.
#[derive(Debug, Clone, PartialEq, Eq)]
pub enum PdfParserError {
    UnknownError(String),
    FileNotFound(String),
    EmbedFailed(String),
}

/// The text an error is shown as.
pub open spec fn parser_error_text(err: PdfParserError) -> Seq<char> {
    match err {
        PdfParserError::UnknownError(msg) => "unknown error occured: "@ + msg@,
        PdfParserError::FileNotFound(msg) => "file not found: "@ + msg@,
        PdfParserError::EmbedFailed(msg) => "embed failed: "@ + msg@,
    }
}

/// The document error an embedding error becomes: embedding failures keep their message
/// (transport errors say so in front), an unknown error stays unknown.
pub open spec fn is_parser_error_for(err: EmbedError, r: PdfParserError) -> bool {
    match err {
        EmbedError::EmptyInput => r matches PdfParserError::EmbedFailed(m) && m@ == "empty input"@,
        EmbedError::RateLimited => r matches PdfParserError::EmbedFailed(m) && m@ == "rate limited"@,
        EmbedError::Transport(msg) => r matches PdfParserError::EmbedFailed(m) && m@ == "transport error: "@
            + msg@,
        EmbedError::Provider { message, .. } => r matches PdfParserError::EmbedFailed(m) && m@ == message@,
        EmbedError::InvalidResponse(msg) => r matches PdfParserError::EmbedFailed(m) && m@ == msg@,
        EmbedError::Unknown(msg) => r matches PdfParserError::UnknownError(m) && m@ == msg@,
    }
}

fn prefixed(prefix: &str, msg: &str) -> (r: String)
    ensures
        r@ == prefix@ + msg@,
{
    let mut s = String::from_str(prefix);
    s.append(msg);
    s
}

impl PdfParserError {
    /// The text the error is shown as (what its `Display` writes).
    pub fn message(&self) -> (r: String)
        ensures
            r@ == parser_error_text(*self),
    {
        match self {
            PdfParserError::UnknownError(msg) => prefixed("unknown error occured: ", msg.as_str()),
            PdfParserError::FileNotFound(msg) => prefixed("file not found: ", msg.as_str()),
            PdfParserError::EmbedFailed(msg) => prefixed("embed failed: ", msg.as_str()),
        }
    }

    /// Turns an embedding error into a document error.
    pub fn from_embed_error(err: EmbedError) -> (r: PdfParserError)
        ensures
            is_parser_error_for(err, r),
    {
        match err {
            EmbedError::EmptyInput => PdfParserError::EmbedFailed(String::from_str("empty input")),
            EmbedError::RateLimited => PdfParserError::EmbedFailed(String::from_str("rate limited")),
            EmbedError::Transport(msg) => PdfParserError::EmbedFailed(prefixed("transport error: ", msg.as_str())),
            EmbedError::Provider { message, .. } => PdfParserError::EmbedFailed(message),
            EmbedError::InvalidResponse(msg) => PdfParserError::EmbedFailed(msg),
            EmbedError::Unknown(msg) => PdfParserError::UnknownError(msg),
        }
    }
}

} // verus!
