use vstd::prelude::*;

use crate::domain::chunk::Chunk;

verus! {

/// Turns the text of a PDF document into chunks.
#[derive(Debug, Clone, Copy, PartialEq, Eq)]
pub struct IngestPdf;

/// The texts of the chunks of the first `k` pages, each with its page number (counting
/// from 1), in reading order.
pub open spec fn page_texts(pages: Seq<Vec<String>>, k: int) -> Seq<(Seq<char>, nat)>
    decreases k,
{
    if k <= 0 {
        Seq::empty()
    } else {
        page_texts(pages, k - 1) + Seq::new(
            pages[k - 1]@.len(),
            |j: int| (pages[k - 1]@[j]@, k as nat),
        )
    }
}

/// Chunks come page by page: their page numbers never go down and lie between 1 and the
/// number of pages read.
pub proof fn law_chunk_pages_in_order(pages: Seq<Vec<String>>, k: int)
    requires
        0 <= k <= pages.len(),
    ensures
        forall|i: int, j: int|
            0 <= i < j < page_texts(pages, k).len() ==> #[trigger] page_texts(pages, k)[i].1
                <= #[trigger] page_texts(pages, k)[j].1,
        forall|i: int|
            0 <= i < page_texts(pages, k).len() ==> 1 <= #[trigger] page_texts(pages, k)[i].1 <= k,
    decreases k,
{
    if k > 0 {
        law_chunk_pages_in_order(pages, k - 1);
        let before = page_texts(pages, k - 1);
        let added = Seq::new(pages[k - 1]@.len(), |j: int| (pages[k - 1]@[j]@, k as nat));
        let all = page_texts(pages, k);
        assert(all == before + added);
        assert forall|i: int| 0 <= i < all.len() implies 1 <= #[trigger] all[i].1 <= k by {
            if i >= before.len() {
                assert(all[i] == added[i - before.len()]);
            } else {
                assert(all[i] == before[i]);
            }
        }
        assert forall|i: int, j: int| 0 <= i < j < all.len() implies #[trigger] all[i].1 <= #[trigger] all[j].1 by {
            if j < before.len() {
                assert(all[i] == before[i]);
                assert(all[j] == before[j]);
            } else if i < before.len() {
                assert(all[i] == before[i]);
                assert(all[j] == added[j - before.len()]);
            } else {
                assert(all[i] == added[i - before.len()]);
                assert(all[j] == added[j - before.len()]);
            }
        }
    }
}

impl IngestPdf {
    /// Numbers the chunks of a document's pages: `pages[i]` holds the chunk texts of page
    /// `i + 1` (none for a page without text). The chunks come out in reading order, each
    /// with its page, the document's name, and its position among all chunks.
    pub fn collect_chunks(pages: &[Vec<String>], source: &str) -> (r: Vec<Chunk>)
        ensures
            r@.len() == page_texts(pages@, pages@.len() as int).len(),
            forall|i: int|
                0 <= i < r@.len() ==> {
                    &&& (#[trigger] r@[i]).text@ == page_texts(pages@, pages@.len() as int)[i].0
                    &&& r@[i].page == page_texts(pages@, pages@.len() as int)[i].1
                    &&& r@[i].source@ == source@
                    &&& r@[i].index == i
                },
    {
        let mut chunks: Vec<Chunk> = Vec::new();
        let mut idx: usize = 0;
        while idx < pages.len()
            invariant
                idx <= pages@.len(),
                chunks@.len() == page_texts(pages@, idx as int).len(),
                forall|i: int|
                    0 <= i < chunks@.len() ==> {
                        &&& (#[trigger] chunks@[i]).text@ == page_texts(pages@, idx as int)[i].0
                        &&& chunks@[i].page == page_texts(pages@, idx as int)[i].1
                        &&& chunks@[i].source@ == source@
                        &&& chunks@[i].index == i
                    },
            decreases pages@.len() - idx,
        {
            let page = &pages[idx];
            let ghost before = page_texts(pages@, idx as int);
            let ghost added = Seq::new(page@.len(), |j: int| (page@[j]@, (idx + 1) as nat));
            assert(page_texts(pages@, idx as int + 1) == before + added);
            let mut j: usize = 0;
            while j < page.len()
                invariant
                    j <= page@.len(),
                    page == pages@[idx as int],
                    idx < pages@.len(),
                    pages@.len() <= usize::MAX,
                    added == Seq::new(page@.len(), |k: int| (page@[k]@, (idx + 1) as nat)),
                    before.len() + added.len() == (before + added).len(),
                    chunks@.len() == before.len() + j,
                    forall|i: int|
                        0 <= i < chunks@.len() ==> {
                            &&& (#[trigger] chunks@[i]).text@ == (before + added)[i].0
                            &&& chunks@[i].page == (before + added)[i].1
                            &&& chunks@[i].source@ == source@
                            &&& chunks@[i].index == i
                        },
                decreases page@.len() - j,
            {
                let index = chunks.len();
                chunks.push(
                    Chunk {
                        text: page[j].clone(),
                        page: idx + 1,
                        source: String::from_str(source),
                        index,
                    },
                );
                assert(chunks@[chunks@.len() - 1].text@ == (before + added)[chunks@.len() - 1].0);
                j = j + 1;
            }
            idx = idx + 1;
        }
        chunks
    }
}

} // verus!
