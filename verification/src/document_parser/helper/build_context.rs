use vstd::prelude::*;

use crate::document_parser::infrastructure::vector_storage::qdrant_upsert::QdrantPayload;
use crate::helper::builder::context_for;

verus! {

/// Builds the retrieval context from search hits, as `helper::builder::build_context` does:
/// blocks `[source: S, page: P, score: X]` + text, taken from the front while the whole fits
/// in `max_chars` bytes.
pub fn build_context(results: &[(QdrantPayload, String)], max_chars: usize) -> (r: String)
    ensures
        r@ == context_for(results@, max_chars as nat),
{
    crate::helper::builder::build_context(results, max_chars)
}


/// Template text of `build_prompt` before the first field.
pub const PROMPT_ID_HEAD: &'static str = "Kamu adalah asisten yang menjawab pertanyaan BERDASARKAN DOKUMEN.

        Jika jawaban tidak ditemukan di dokumen, katakan dengan jujur bahwa kamu tidak menemukannya.

        === DOKUMEN ===
        ";

/// Template text of `build_prompt` after `context`.
pub const PROMPT_ID_AFTER_CONTEXT: &'static str = "

        === PERTANYAAN ===
        ";

/// Template text of `build_prompt` after `question`.
pub const PROMPT_ID_TAIL: &'static str = "

        === JAWABAN ===";

/// The question-answering prompt (in Indonesian) with the document context and the question filled in.
pub open spec fn prompt_id_text(context: Seq<char>, question: Seq<char>) -> Seq<char> {
    PROMPT_ID_HEAD@ + context + PROMPT_ID_AFTER_CONTEXT@ + question + PROMPT_ID_TAIL@
}

/// The question-answering prompt (in Indonesian) with the document context and the question filled in.
pub fn build_prompt(context: &str, question: &str) -> (r: String)
    ensures
        r@ == prompt_id_text(context@, question@),
{
    let mut s = String::from_str(PROMPT_ID_HEAD);
    s.append(context);
    s.append(PROMPT_ID_AFTER_CONTEXT);
    s.append(question);
    s.append(PROMPT_ID_TAIL);
    s
}

} // verus!
