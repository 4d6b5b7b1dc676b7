//! Paging of search answers.
//!
//! Pages are numbered from 1 and hold `per_page` hits each, the last one
//! what is left. A page number below 1 counts as 1, a page size below 1 as
//! 10.

use crate::dates::{mail_rfc3339, search_hit_date};
use crate::http::models::requests::SearchRequest;
use crate::http::models::responses::{SearchResponse, SearchResponseItem};
use crate::search::message::{SearchDocument, SearchDocumentView};
use vstd::prelude::*;

verus! {

/// Page that is served where the request names none, or one below 1.
pub const DEFAULT_PAGE: usize = 1;

/// Page size that is assumed where the request names none, or one below 1.
pub const DEFAULT_PER_PAGE: usize = 10;

/// The page that a request asks for.
pub open spec fn effective_page(page: Option<usize>) -> usize {
    match page {
        Some(p) => if p < 1 {
            DEFAULT_PAGE
        } else {
            p
        },
        None => DEFAULT_PAGE,
    }
}

/// The page size that a request asks for.
pub open spec fn effective_per_page(per_page: Option<usize>) -> usize {
    match per_page {
        Some(n) => if n < 1 {
            DEFAULT_PER_PAGE
        } else {
            n
        },
        None => DEFAULT_PER_PAGE,
    }
}

/// Number of hits that stand before the first one of page `page`.
pub open spec fn page_offset(page: usize, per_page: usize) -> int {
    per_page * (page - 1)
}

/// Number of pages that `total` hits fill: `total / per_page`, rounded up.
pub open spec fn page_count(total: usize, per_page: usize) -> int {
    if total % per_page == 0 {
        total as int / per_page as int
    } else {
        total as int / per_page as int + 1
    }
}

/// The hits that a page holds, out of all hits in rank order: those at the
/// positions from `per_page * (page - 1)` up to, and without,
/// `per_page * page`, as far as there are hits.
pub open spec fn ranked_page<T>(ranked: Seq<T>, page: usize, per_page: usize) -> Seq<T> {
    let start = if page_offset(page, per_page) < ranked.len() {
        page_offset(page, per_page)
    } else {
        ranked.len() as int
    };
    let end = if start + per_page < ranked.len() {
        start + per_page
    } else {
        ranked.len() as int
    };
    ranked.subrange(start, end)
}

/// A page holds `per_page` hits, the last page what is left of them, and a
/// page past the end none. Its hits are the ones that stand at its own
/// positions in the ranking.
pub proof fn page_holds_its_share<T>(ranked: Seq<T>, page: usize, per_page: usize)
    requires
        page >= 1,
        per_page >= 1,
    ensures
        ranked_page(ranked, page, per_page).len() <= per_page,
        page_offset(page, per_page) + per_page <= ranked.len() ==> ranked_page(
            ranked,
            page,
            per_page,
        ).len() == per_page,
        page_offset(page, per_page) <= ranked.len() < page_offset(page, per_page) + per_page
            ==> ranked_page(ranked, page, per_page).len() == ranked.len() - page_offset(
            page,
            per_page,
        ),
        page_offset(page, per_page) >= ranked.len() ==> ranked_page(ranked, page, per_page).len()
            == 0,
        forall|i: int|
            0 <= i < ranked_page(ranked, page, per_page).len() ==> #[trigger] ranked_page(
                ranked,
                page,
                per_page,
            )[i] == ranked[page_offset(page, per_page) + i],
{
    assert(page_offset(page, per_page) >= 0) by (nonlinear_arith)
        requires
            page >= 1,
            per_page >= 1,
    ;
}

/// No position of the ranking belongs to two pages: where one page ends,
/// the next one begins, and every later page begins after that.
pub proof fn pages_do_not_overlap(earlier: usize, later: usize, per_page: usize)
    requires
        1 <= earlier < later,
        per_page >= 1,
    ensures
        page_offset(earlier, per_page) + per_page <= page_offset(later, per_page),
        page_offset((earlier + 1) as usize, per_page) == page_offset(earlier, per_page) + per_page,
{
    assert(per_page * (earlier - 1) + per_page == per_page * earlier) by (nonlinear_arith);
    assert(per_page * earlier <= per_page * (later - 1)) by (nonlinear_arith)
        requires
            earlier <= later - 1,
            per_page >= 1,
    ;
}

/// Which hits to fetch for one request.
#[derive(Debug, Clone, Copy, PartialEq, Eq)]
pub struct PageWindow {
    /// The page served, at least 1.
    pub page: usize,
    /// The page size counted with, at least 1.
    pub per_page: usize,
    /// Number of hits to skip.
    pub offset: usize,
    /// Number of hits to fetch at most: the page size.
    pub limit: usize,
}

/// The window of hits that a request asks for.
///
/// The offset is `per_page * (page - 1)`. Where that product does not fit
/// the machine word the offset is the largest word: no index holds that many
/// documents, so the answer is the empty page either way.
pub fn page_window(page: Option<usize>, per_page: Option<usize>) -> (window: PageWindow)
    ensures
        window.page == effective_page(page),
        window.per_page == effective_per_page(per_page),
        window.page >= 1 && window.per_page >= 1,
        window.limit == window.per_page,
        page_offset(window.page, window.per_page) <= usize::MAX ==> window.offset == page_offset(
            window.page,
            window.per_page,
        ),
        page_offset(window.page, window.per_page) > usize::MAX ==> window.offset == usize::MAX,
{
    let mut page_number = match page {
        Some(p) => p,
        None => DEFAULT_PAGE,
    };
    if page_number < 1 {
        page_number = DEFAULT_PAGE;
    }
    let mut page_size = match per_page {
        Some(n) => n,
        None => DEFAULT_PER_PAGE,
    };
    if page_size < 1 {
        page_size = DEFAULT_PER_PAGE;
    }
    let offset = match page_size.checked_mul(page_number - 1) {
        Some(product) => product,
        None => usize::MAX,
    };
    PageWindow { page: page_number, per_page: page_size, offset, limit: page_size }
}

impl SearchRequest {
    /// The window of hits that this request asks for.
    pub fn window(&self) -> (window: PageWindow)
        ensures
            window.page == effective_page(self.page),
            window.per_page == effective_per_page(self.per_page),
            window.page >= 1 && window.per_page >= 1,
            window.limit == window.per_page,
            page_offset(window.page, window.per_page) <= usize::MAX ==> window.offset
                == page_offset(window.page, window.per_page),
            page_offset(window.page, window.per_page) > usize::MAX ==> window.offset
                == usize::MAX,
    {
        page_window(self.page, self.per_page)
    }
}

/// The number of pages that `total_hits` hits fill at the page size that the
/// request asks for.
pub fn total_pages(total_hits: usize, per_page: Option<usize>) -> (pages: usize)
    ensures
        pages == page_count(total_hits, effective_per_page(per_page)),
{
    let window = page_window(Some(1), per_page);
    let size = window.per_page;
    let full = total_hits / size;
    if total_hits % size != 0 {
        proof {
            assert(full < usize::MAX) by (nonlinear_arith)
                requires
                    full == total_hits as int / size as int,
                    total_hits as int % size as int != 0,
                    size >= 1,
                    total_hits <= usize::MAX,
            {
                if size == 1 {
                    assert(total_hits as int % 1 == 0);
                } else {
                    assert(total_hits as int / size as int <= total_hits as int / 2);
                }
            }
        }
        full + 1
    } else {
        full
    }
}

/// The page count is the least number of pages that hold all hits.
pub proof fn page_count_is_ceiling(total: usize, per_page: usize)
    requires
        per_page >= 1,
    ensures
        page_count(total, per_page) * per_page >= total,
        (page_count(total, per_page) - 1) * per_page < total || total == 0,
        total == 0 ==> page_count(total, per_page) == 0,
{
    let t = total as int;
    let p = per_page as int;
    assert(t == p * (t / p) + t % p) by {
        vstd::arithmetic::div_mod::lemma_fundamental_div_mod(t, p);
    }
    assert(0 <= t % p < p) by {
        vstd::arithmetic::div_mod::lemma_mod_bound(t, p);
    }
    assert((t / p + 1) * p == p * (t / p) + p) by (nonlinear_arith);
    assert((t / p) * p == p * (t / p)) by (nonlinear_arith);
    assert((t / p - 1) * p == p * (t / p) - p) by (nonlinear_arith);
    if t == 0 {
        assert(t / p == 0) by {
            vstd::arithmetic::div_mod::lemma_div_basics(p);
        }
    }
}

/// A page number or a page size of zero asks for what the defaults ask for.
pub proof fn zero_asks_for_defaults()
    ensures
        effective_page(Some(0)) == effective_page(Some(1)),
        effective_page(None) == 1,
        effective_per_page(Some(0)) == effective_per_page(Some(10)),
        effective_per_page(None) == 10,
{
}

/// A stored document as a search hit.
pub open spec fn hit_of(doc: SearchDocumentView) -> SearchResponseItemView {
    SearchResponseItemView {
        hash: doc.hash,
        user_id: doc.user_id,
        from: doc.from,
        to: doc.to,
        cc: doc.cc,
        bcc: doc.bcc,
        subject: doc.subject,
        date: mail_rfc3339(doc.date),
    }
}

pub struct SearchResponseItemView {
    pub hash: Seq<char>,
    pub user_id: i64,
    pub from: Seq<char>,
    pub to: Seq<char>,
    pub cc: Seq<char>,
    pub bcc: Seq<char>,
    pub subject: Seq<char>,
    pub date: Seq<char>,
}

impl DeepView for SearchResponseItem {
    type V = SearchResponseItemView;

    open spec fn deep_view(&self) -> SearchResponseItemView {
        SearchResponseItemView {
            hash: self.hash@,
            user_id: self.user_id,
            from: self.from@,
            to: self.to@,
            cc: self.cc@,
            bcc: self.bcc@,
            subject: self.subject@,
            date: self.date@,
        }
    }
}

impl View for SearchResponseItem {
    type V = SearchResponseItemView;

    open spec fn view(&self) -> SearchResponseItemView {
        self.deep_view()
    }
}

/// Renders one stored document as a search hit: its fields as stored, its
/// date as text.
pub fn search_hit(doc: &SearchDocument) -> (item: SearchResponseItem)
    ensures
        item@ == hit_of(doc@),
{
    SearchResponseItem {
        hash: doc.hash.clone(),
        user_id: doc.user_id,
        from: doc.from.clone(),
        to: doc.to.clone(),
        cc: doc.cc.clone(),
        bcc: doc.bcc.clone(),
        subject: doc.subject.clone(),
        date: search_hit_date(doc.date),
    }
}

/// The hits of one answer: the documents that the index returned for the
/// window, in rank order and never more of them than the page size.
pub open spec fn page_hits(ranked: Seq<SearchDocumentView>, per_page: usize) -> Seq<
    SearchResponseItemView,
> {
    let count = if ranked.len() <= per_page {
        ranked.len() as int
    } else {
        per_page as int
    };
    ranked.take(count).map_values(|d: SearchDocumentView| hit_of(d))
}

/// Assembles the answer to a search request from what the index returned:
/// the ranked documents of the window, in rank order, and the number of all
/// hits. The answer never holds more hits than the page size.
pub fn search_response(request: &SearchRequest, ranked: &Vec<SearchDocument>, total_hits: usize) -> (
    response: SearchResponse
)
    ensures
        response.page == effective_page(request.page),
        response.total_items == total_hits,
        response.total_pages == page_count(total_hits, effective_per_page(request.per_page)),
        response.items.deep_view() == page_hits(
            ranked.deep_view(),
            effective_per_page(request.per_page),
        ),
        response.items.len() <= effective_per_page(request.per_page),
{
    let window = request.window();
    let pages = total_pages(total_hits, request.per_page);
    let count = if ranked.len() <= window.per_page {
        ranked.len()
    } else {
        window.per_page
    };
    let ghost all = page_hits(ranked.deep_view(), window.per_page);
    let mut items: Vec<SearchResponseItem> = Vec::new();
    let mut i: usize = 0;
    while i < count
        invariant
            i <= count <= ranked.len(),
            all == ranked.deep_view().take(count as int).map_values(
                |d: SearchDocumentView| hit_of(d),
            ),
            items.len() == i,
            items.deep_view() == all.take(i as int),
        decreases count - i,
    {
        let ghost before = items@;
        items.push(search_hit(&ranked[i]));
        proof {
            assert(ranked.deep_view()[i as int] == ranked[i as int]@);
            assert forall|j: int| 0 <= j < i + 1 implies #[trigger] items.deep_view()[j]
                == all[j] by {
                if j < i {
                    assert(items@[j] == before[j]);
                    assert(all.take(i as int)[j] == all[j]);
                }
            }
            assert(items.deep_view() =~= all.take(i as int + 1));
        }
        i += 1;
    }
    proof {
        assert(all.take(count as int) == all);
    }
    SearchResponse { items, page: window.page, total_pages: pages, total_items: total_hits }
}

/// Handed the page that the index holds for the window, the answer carries
/// exactly the hits of that page.
pub proof fn answer_carries_the_page(all_ranked: Seq<SearchDocumentView>, page: usize, per_page: usize)
    requires
        page >= 1,
        per_page >= 1,
    ensures
        page_hits(ranked_page(all_ranked, page, per_page), per_page) == ranked_page(
            all_ranked,
            page,
            per_page,
        ).map_values(|d: SearchDocumentView| hit_of(d)),
{
    page_holds_its_share(all_ranked, page, per_page);
    let slice = ranked_page(all_ranked, page, per_page);
    assert(slice.take(slice.len() as int) == slice);
}

} // verus!
