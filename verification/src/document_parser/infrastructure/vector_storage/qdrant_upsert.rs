use vstd::prelude::*;

use crate::domain::chunk::Chunk;

verus! {

/// What the vector store keeps beside each vector: the chunk's text and where it came from.
#[derive(Debug, Clone, PartialEq, Eq)]
pub struct QdrantPayload {
    pub text: String,
    pub page: usize,
    pub source: String,
    pub index: usize,
}

/// The base address of the vector store's collections.
pub const QDRANT_COLLECTIONS_URL: &'static str = "http://localhost:6333/collections/";

/// The endpoint that upserts points into a collection and waits for the write.
pub fn qdrant_upsert_url(collection: &str) -> (r: String)
    ensures
        r@ == QDRANT_COLLECTIONS_URL@ + collection@ + "/points?wait=true"@,
{
    let mut s = String::from_str(QDRANT_COLLECTIONS_URL);
    s.append(collection);
    s.append("/points?wait=true");
    s
}

/// The payload that a chunk is stored with.
pub open spec fn is_payload_of(p: QdrantPayload, c: Chunk) -> bool {
    &&& p.text@ == c.text@
    &&& p.page == c.page
    &&& p.source@ == c.source@
    &&& p.index == c.index
}

/// The ids and payloads of the points to store, pairing chunks with their vectors in order:
/// as many points as there are both chunks and vectors, the `i`-th with id `i` and the
/// payload of the `i`-th chunk.
pub fn qdrant_payloads(chunks: &[Chunk], vector_count: usize) -> (r: Vec<(u64, QdrantPayload)>)
    ensures
        r@.len() == if chunks@.len() < vector_count { chunks@.len() } else { vector_count as nat },
        forall|i: int| 0 <= i < r@.len() ==> #[trigger] r@[i].0 == i && is_payload_of(r@[i].1, chunks@[i]),
{
    let n = if chunks.len() < vector_count {
        chunks.len()
    } else {
        vector_count
    };
    let mut out: Vec<(u64, QdrantPayload)> = Vec::new();
    let mut i: usize = 0;
    while i < n
        invariant
            i <= n,
            n <= chunks@.len(),
            n == if chunks@.len() < vector_count { chunks@.len() } else { vector_count as nat },
            out@.len() == i,
            forall|k: int| 0 <= k < i ==> #[trigger] out@[k].0 == k && is_payload_of(out@[k].1, chunks@[k]),
        decreases n - i,
    {
        let c = &chunks[i];
        let payload = QdrantPayload {
            text: c.text.clone(),
            page: c.page,
            source: c.source.clone(),
            index: c.index,
        };
        out.push((i as u64, payload));
        i = i + 1;
    }
    out
}

} // verus!
