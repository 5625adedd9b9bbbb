use vstd::prelude::*;

use crate::document_parser::ports::embedder::{EmbedError, EmbeddingRequest};
use crate::helper::text::{is_blank, str_is_blank};

verus! {

/// The OpenAI embeddings endpoint.
pub const OPENAI_EMBEDDINGS_URL: &'static str = "https://api.openai.com/v1/embeddings";

/// The OpenAI embedding model used.
pub const OPENAI_EMBEDDING_MODEL: &'static str = "text-embedding-3-large";

/// Embeds texts with OpenAI's embeddings API, authenticating with the API key.
#[derive(Debug, Clone, PartialEq, Eq)]
pub struct OpenAiEmbedder {
    pub api_key: String,
}

/// Whether an HTTP status code is a success (2xx).
pub open spec fn is_success_status(code: u16) -> bool {
    200 <= code <= 299
}

impl OpenAiEmbedder {
    /// The request to make for `text`, or `EmptyInput` when the text is blank.
    pub fn embedding_request<'a>(&self, text: &'a str) -> (r: Result<EmbeddingRequest<'a>, EmbedError>)
        ensures
            is_blank(text@) ==> r == Err::<EmbeddingRequest<'a>, EmbedError>(EmbedError::EmptyInput),
            !is_blank(text@) ==> (r matches Ok(req) && req.model@ == OPENAI_EMBEDDING_MODEL@
                && req.input@ == text@),
    {
        if str_is_blank(text) {
            return Err(EmbedError::EmptyInput);
        }
        Ok(EmbeddingRequest { model: OPENAI_EMBEDDING_MODEL, input: text })
    }
}

/// The provider error for a response status: none for a success, else the status code with
/// the response body.
pub fn provider_status_check(status: u16, body: String) -> (r: Result<(), EmbedError>)
    ensures
        is_success_status(status) ==> r is Ok,
        !is_success_status(status) ==> r == Err::<(), EmbedError>(
            EmbedError::Provider { code: Some(status), message: body },
        ),
{
    if 200 <= status && status <= 299 {
        Ok(())
    } else {
        Err(EmbedError::Provider { code: Some(status), message: body })
    }
}

/// The first embedding of a provider's answer; an answer without any is invalid
/// ("empty embedding").
pub fn first_embedding<T>(data: Vec<T>) -> (r: Result<T, EmbedError>)
    ensures
        data@.len() > 0 ==> r == Ok::<T, EmbedError>(data@[0]),
        data@.len() == 0 ==> (r matches Err(EmbedError::InvalidResponse(m)) && m@ == "empty embedding"@),
{
    let mut data = data;
    if data.len() == 0 {
        return Err(EmbedError::InvalidResponse(String::from_str("empty embedding")));
    }
    Ok(data.remove(0))
}

} // verus!
