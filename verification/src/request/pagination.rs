use vstd::prelude::*;

verus! {

/// Paging and ordering of a list request: the page (counting from 1), the page size, the
/// number of rows to skip, a search text and the sort key (`-` in front for descending).
#[derive(Debug, Clone, PartialEq, Eq)]
pub struct PaginationRequest {
    pub page: Option<u32>,
    pub per_page: Option<u32>,
    pub offset: Option<u32>,
    pub search: Option<String>,
    pub sort: Option<String>,
}

/// The page a query asks for, 1 when it names none.
pub open spec fn requested_page(q: PaginationRequest) -> u32 {
    match q.page {
        Some(p) => p,
        None => 1,
    }
}

/// The page size a query asks for, or the default.
pub open spec fn requested_per_page(q: PaginationRequest, default_per_page: Option<u32>) -> Option<u32> {
    match q.per_page {
        Some(pp) => Some(pp),
        None => default_per_page,
    }
}

/// Tests `page_in_range`: whether the offset of the request can be computed.
pub fn paging_in_range(q: &PaginationRequest, default_per_page: Option<u32>) -> (r: bool)
    ensures
        r == page_in_range(*q, default_per_page),
{
    let page: u32 = match q.page {
        Some(p) => p,
        None => 1,
    };
    let per_page = match q.per_page {
        Some(pp) => Some(pp),
        None => default_per_page,
    };
    match per_page {
        Some(pp) => {
            if page == 0 {
                false
            } else {
                let before: u64 = (page - 1) as u64;
                let size: u64 = pp as u64;
                assert(before * size <= u64::MAX) by (nonlinear_arith)
                    requires
                        before <= u32::MAX,
                        size <= u32::MAX,
                ;
                before * size <= u32::MAX as u64
            }
        },
        None => true,
    }
}

/// Whether the offset can be computed: with a page size, the page is at least 1 and
/// `(page - 1) * per_page` fits in 32 bits; without one, no offset is computed.
pub open spec fn page_in_range(q: PaginationRequest, default_per_page: Option<u32>) -> bool {
    match requested_per_page(q, default_per_page) {
        Some(pp) => requested_page(q) >= 1 && (requested_page(q) - 1) * pp <= u32::MAX,
        None => true,
    }
}

/// The normalised request: the page (1 by default), the page size (or the default), the
/// offset `(page - 1) * per_page` when there is a page size, an empty search text, and the
/// sort key (or the default).
pub open spec fn is_page_request(
    r: PaginationRequest,
    q: PaginationRequest,
    default_per_page: Option<u32>,
    default_sort: Seq<char>,
) -> bool {
    &&& r.page == Some(requested_page(q))
    &&& r.per_page == requested_per_page(q, default_per_page)
    &&& r.offset == match requested_per_page(q, default_per_page) {
        Some(pp) => Some(((requested_page(q) - 1) * pp) as u32),
        None => None,
    }
    &&& r.search matches Some(s) && s@.len() == 0
    &&& r.sort matches Some(s) && s@ == match q.sort {
        Some(qs) => qs@,
        None => default_sort,
    }
}

/// Normalises the paging of a list request.
pub fn page_request(q: PaginationRequest, default_per_page: Option<u32>, default_sort: &str) -> (r: PaginationRequest)
    requires
        page_in_range(q, default_per_page),
    ensures
        is_page_request(r, q, default_per_page, default_sort@),
{
    let page = match q.page {
        Some(p) => p,
        None => 1,
    };
    let per_page = match q.per_page {
        Some(pp) => Some(pp),
        None => default_per_page,
    };
    let offset = match per_page {
        Some(pp) => {
            assert((page - 1) * pp <= u32::MAX);
            Some((page - 1) * pp)
        },
        None => None,
    };
    let sort = match q.sort {
        Some(s) => s,
        None => String::from_str(default_sort),
    };
    PaginationRequest {
        page: Some(page),
        per_page,
        offset,
        search: Some(String::new()),
        sort: Some(sort),
    }
}

/// The rows a listing reads: at most `limit` of them (no bound when it is `None`), after
/// skipping `offset` of them.
#[derive(Debug, Clone, Copy, PartialEq, Eq)]
pub struct QueryWindow {
    pub limit: Option<i64>,
    pub offset: Option<i64>,
}

/// The window of a request: the page size as the limit (or `default_limit` when the request
/// names none), and the request's offset.
pub open spec fn window_of(req: PaginationRequest, default_limit: Option<u32>) -> QueryWindow {
    QueryWindow {
        limit: match requested_per_page(req, default_limit) {
            Some(n) => Some(n as i64),
            None => None,
        },
        offset: match req.offset {
            Some(o) => Some(o as i64),
            None => None,
        },
    }
}

/// Law: a normalised request for page `p` of `n` rows reads `n` rows after skipping the
/// `(p - 1) * n` rows of the earlier pages.
pub proof fn law_page_window_skips_earlier_pages(
    q: PaginationRequest,
    r: PaginationRequest,
    default_per_page: Option<u32>,
    default_sort: Seq<char>,
)
    requires
        page_in_range(q, default_per_page),
        is_page_request(r, q, default_per_page, default_sort),
    ensures
        match requested_per_page(q, default_per_page) {
            Some(n) => window_of(r, None) == (QueryWindow {
                limit: Some(n as i64),
                offset: Some(((requested_page(q) - 1) * n) as i64),
            }),
            None => window_of(r, None) == (QueryWindow { limit: None, offset: None }),
        },
{
}

/// The window a listing query reads for a normalised request: the page size as the limit
/// (or `default_limit` when the request names none), and the request's offset.
pub fn query_window(req: &PaginationRequest, default_limit: Option<u32>) -> (r: QueryWindow)
    ensures
        r == window_of(*req, default_limit),
{
    let limit = match req.per_page {
        Some(n) => Some(n as i64),
        None => match default_limit {
            Some(d) => Some(d as i64),
            None => None,
        },
    };
    let offset = match req.offset {
        Some(o) => Some(o as i64),
        None => None,
    };
    QueryWindow { limit, offset }
}

} // verus!
