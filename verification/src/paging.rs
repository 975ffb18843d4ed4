//! Pages of a list: the window that a request asks for, and what is said of the whole.
use vstd::prelude::*;

use crate::json::{items_view, no_members, Json, JsonObject, JsonView};
use crate::reply::{
    answer, database_error_answer, error_answer, DbFailure, Reply, ReplyView, OK,
};

verus! {

/// The page of a list that a request gets.
#[derive(PartialEq, Eq, Structural, Clone, Copy, Debug)]
pub struct PageWindow {
    /// The number of the page, from 1 on.
    pub page: i64,
    /// How many rows a page has.
    pub page_size: i64,
    /// How many rows stand before the page.
    pub offset: i64,
}

/// The page that is shown for the page asked for.
pub open spec fn shown_page(page: int) -> int {
    if page < 1 {
        1
    } else {
        page
    }
}

/// The page size that is used for the one asked for, at most `cap`.
pub open spec fn shown_size(page_size: int, cap: int) -> int {
    if page_size < 1 {
        1
    } else if page_size > cap {
        cap
    } else {
        page_size
    }
}

/// How many rows stand before the page that is shown.
pub open spec fn rows_before(page: int, page_size: int, cap: int) -> int {
    (shown_page(page) - 1) * shown_size(page_size, cap)
}

impl PageWindow {
    /// Whether this is the window for a request for `page` with `page_size` rows.
    pub open spec fn shows(self, page: int, page_size: int, cap: int) -> bool {
        &&& self.page == shown_page(page)
        &&& self.page_size == shown_size(page_size, cap)
        &&& self.offset == rows_before(page, page_size, cap)
    }
}

fn page_at_least_one(page: i64) -> (shown: i64)
    ensures
        shown == shown_page(page as int),
{
    if page < 1 {
        1
    } else {
        page
    }
}

fn clamped_size(page_size: i64, cap: i64) -> (size: i64)
    requires
        cap >= 1,
    ensures
        size == shown_size(page_size as int, cap as int),
{
    if page_size < 1 {
        1
    } else if page_size > cap {
        cap
    } else {
        page_size
    }
}

proof fn lemma_product_bounds(a: int, b: int)
    requires
        0 <= a <= i64::MAX,
        0 <= b <= i64::MAX,
    ensures
        0 <= a * b <= i64::MAX * i64::MAX,
{
    assert(0 <= a * b <= i64::MAX * i64::MAX) by (nonlinear_arith)
        requires
            0 <= a <= i64::MAX,
            0 <= b <= i64::MAX,
    ;
}

/// The window for a request: page 1 where it asks for less, and a page size from 1 to `cap`. A
/// page so far behind that the number of rows before it is no 64-bit integer has no window.
pub fn page_window(page: i64, page_size: i64, cap: i64) -> (window: Option<PageWindow>)
    requires
        cap >= 1,
    ensures
        match window {
            Some(w) => w.shows(page as int, page_size as int, cap as int),
            None => rows_before(page as int, page_size as int, cap as int) > i64::MAX,
        },
{
    let shown = page_at_least_one(page);
    let size = clamped_size(page_size, cap);
    proof {
        lemma_product_bounds(shown - 1, size as int);
    }
    let before: i128 = (shown as i128 - 1) * size as i128;
    if before <= i64::MAX as i128 {
        Some(PageWindow { page: shown, page_size: size, offset: before as i64 })
    } else {
        None
    }
}

/// The largest count of rows, of either sign, up to which page counts are exact quotients.
pub const LARGEST_EXACT_TOTAL: i64 = 9_007_199_254_740_992;

/// The quotient of two integers, rounded up. The divisor is positive.
pub open spec fn quotient_rounded_up(total: int, size: int) -> int {
    -((-total) / size)
}

/// How many pages of `page_size` rows hold `total` rows: the last page may be shorter. Beyond
/// [`LARGEST_EXACT_TOTAL`] the answer is `None`.
pub fn total_pages(total: i64, page_size: i64) -> (pages: Option<i64>)
    requires
        page_size >= 1,
    ensures
        pages is Some <==> -LARGEST_EXACT_TOTAL <= total <= LARGEST_EXACT_TOTAL,
        pages matches Some(n) ==> n == quotient_rounded_up(total as int, page_size as int),
{
    if total > LARGEST_EXACT_TOTAL || total < -LARGEST_EXACT_TOTAL {
        return None;
    }
    if total <= 0 {
        // Towards zero is upwards here.
        let n: i64 = (-total) / page_size;
        proof {
            lemma_quotient_small(-total as int, page_size as int);
        }
        Some(-n)
    } else {
        let n: i64 = (total - 1) / page_size;
        proof {
            lemma_quotient_small(total - 1, page_size as int);
            lemma_rounded_up(total as int, page_size as int);
        }
        Some(n + 1)
    }
}

proof fn lemma_quotient_small(a: int, b: int)
    requires
        0 <= a,
        1 <= b,
    ensures
        0 <= a / b <= a,
{
    vstd::arithmetic::div_mod::lemma_div_is_ordered_by_denominator(a, 1, b);
    vstd::arithmetic::div_mod::lemma_div_pos_is_pos(a, b);
}

/// Rounding up is rounding down of one less, plus one.
proof fn lemma_rounded_up(total: int, size: int)
    requires
        total >= 1,
        size >= 1,
    ensures
        quotient_rounded_up(total, size) == (total - 1) / size + 1,
{
    let q = (total - 1) / size;
    let r = (total - 1) % size;
    vstd::arithmetic::div_mod::lemma_fundamental_div_mod(total - 1, size);
    vstd::arithmetic::div_mod::lemma_mod_bound(total - 1, size);
    assert(-total == size * (-(q + 1)) + (size - 1 - r)) by (nonlinear_arith)
        requires
            total - 1 == size * q + r,
    ;
    vstd::arithmetic::div_mod::lemma_fundamental_div_mod_converse(
        -total,
        size,
        -(q + 1),
        size - 1 - r,
    );
}

/// The count that a query brought: 0 where it failed or brought no row.
pub open spec fn counted(total: Result<Option<i64>, DbFailure>) -> i64 {
    match total {
        Ok(Some(n)) => n,
        _ => 0,
    }
}

/// The count that a query brought: 0 where it failed or brought no row.
pub fn count_or_zero(total: Result<Option<i64>, DbFailure>) -> (n: i64)
    ensures
        n == counted(total),
{
    match total {
        Ok(Some(n)) => n,
        _ => 0,
    }
}

/// Where a page stands in the whole list.
pub open spec fn meta_view(window: PageWindow, total: i64, pages: i64) -> JsonView {
    JsonView::Object(
        no_members()
            .push(("page"@, JsonView::Int(window.page as int)))
            .push(("page_size"@, JsonView::Int(window.page_size as int)))
            .push(("total"@, JsonView::Int(total as int)))
            .push(("total_pages"@, JsonView::Int(pages as int))),
    )
}

/// What is answered to a request for a page.
pub open spec fn page_answer(
    rows: Result<Vec<Json>, DbFailure>,
    window: PageWindow,
    total: i64,
    pages: i64,
) -> ReplyView {
    match rows {
        Ok(items) => answer(
            OK,
            JsonView::Object(
                no_members()
                    .push(("data"@, JsonView::List(items_view(items@))))
                    .push(("meta"@, meta_view(window, total, pages))),
            ),
        ),
        Err(_) => database_error_answer(),
    }
}

/// The answer to a request for a page: its rows, and where it stands in the whole list.
pub fn page_reply(
    rows: Result<Vec<Json>, DbFailure>,
    window: PageWindow,
    total: i64,
    pages: i64,
) -> (reply: Reply)
    ensures
        reply@ == page_answer(rows, window, total, pages),
{
    match rows {
        Ok(items) => {
            let meta = JsonObject::new()
                .with("page", Json::integer(window.page))
                .with("page_size", Json::integer(window.page_size))
                .with("total", Json::integer(total))
                .with("total_pages", Json::integer(pages))
                .build();
            Reply::new(
                OK,
                JsonObject::new().with("data", Json::list(items)).with("meta", meta).build(),
            )
        },
        Err(_) => Reply::database_error(),
    }
}

/// How many pages are told of: the quotient rounded up where it is exact, else `beyond`.
pub open spec fn pages_told(total: i64, page_size: i64, beyond: i64) -> i64 {
    if -LARGEST_EXACT_TOTAL <= total <= LARGEST_EXACT_TOTAL {
        quotient_rounded_up(total as int, page_size as int) as i64
    } else {
        beyond
    }
}

/// What is answered to a request for a page, from what the two queries brought: the rows, and the
/// count of the whole list.
pub open spec fn list_answer(
    rows: Result<Vec<Json>, DbFailure>,
    window: PageWindow,
    total: Result<Option<i64>, DbFailure>,
    beyond: i64,
) -> ReplyView {
    page_answer(
        rows,
        window,
        counted(total),
        pages_told(counted(total), window.page_size, beyond),
    )
}

/// The answer to a request for a page, from what the two queries brought. The number of pages is
/// that of the total in the same answer; `beyond` is the number where the total is beyond
/// [`LARGEST_EXACT_TOTAL`].
pub fn list_reply(
    rows: Result<Vec<Json>, DbFailure>,
    window: PageWindow,
    total: Result<Option<i64>, DbFailure>,
    beyond: i64,
) -> (reply: Reply)
    requires
        window.page_size >= 1,
    ensures
        reply@ == list_answer(rows, window, total, beyond),
        -LARGEST_EXACT_TOTAL <= counted(total) <= LARGEST_EXACT_TOTAL ==> pages_told(
            counted(total),
            window.page_size,
            beyond,
        ) == quotient_rounded_up(counted(total) as int, window.page_size as int),
{
    let count = count_or_zero(total);
    let pages = match total_pages(count, window.page_size) {
        Some(n) => n,
        None => beyond,
    };
    page_reply(rows, window, count, pages)
}

/// The rows of a page stand directly behind those of the page before: no row is shown on two
/// pages, and none is left out between them.
pub proof fn pages_follow_each_other(page: int, page_size: int, cap: int)
    requires
        page >= 1,
        cap >= 1,
    ensures
        rows_before(page + 1, page_size, cap) == rows_before(page, page_size, cap) + shown_size(
            page_size,
            cap,
        ),
        rows_before(1, page_size, cap) == 0,
{
    let size = shown_size(page_size, cap);
    assert(page * size == (page - 1) * size + size) by (nonlinear_arith);
    assert(0 * size == 0) by (nonlinear_arith);
}

/// A page holds rows of the list just where its number is at most the number of pages.
pub proof fn page_holds_rows(page: int, page_size: int, cap: int, total: int)
    requires
        page >= 1,
        cap >= 1,
        total >= 0,
    ensures
        rows_before(page, page_size, cap) < total <==> page <= quotient_rounded_up(
            total,
            shown_size(page_size, cap),
        ),
{
    let size = shown_size(page_size, cap);
    let n = quotient_rounded_up(total, size);
    if total == 0 {
        assert(0int / size == 0) by {
            vstd::arithmetic::div_mod::lemma_div_basics(size);
        }
        assert((page - 1) * size >= 0) by (nonlinear_arith)
            requires
                page >= 1,
                size >= 1,
        ;
    } else {
        lemma_rounded_up(total, size);
        vstd::arithmetic::div_mod::lemma_fundamental_div_mod(total - 1, size);
        vstd::arithmetic::div_mod::lemma_mod_bound(total - 1, size);
        let q = (total - 1) / size;
        let r = (total - 1) % size;
        if page <= n {
            assert((page - 1) * size <= size * q) by (nonlinear_arith)
                requires
                    page - 1 <= q,
                    size >= 1,
            ;
        } else {
            assert((page - 1) * size >= size * q + size) by (nonlinear_arith)
                requires
                    page - 1 >= q + 1,
                    size >= 1,
            ;
        }
    }
}

/// The rows of a list that a page shows.
pub open spec fn rows_shown<T>(all: Seq<T>, page: int, page_size: int, cap: int) -> Seq<T> {
    let start = rows_before(page, page_size, cap);
    let end = start + shown_size(page_size, cap);
    if start >= all.len() {
        Seq::empty()
    } else if end >= all.len() {
        all.subrange(start, all.len() as int)
    } else {
        all.subrange(start, end)
    }
}

/// The rows of a list that its first pages show, one page behind the other.
pub open spec fn shown_so_far<T>(all: Seq<T>, pages: nat, page_size: int, cap: int) -> Seq<T>
    decreases pages,
{
    if pages == 0 {
        Seq::empty()
    } else {
        shown_so_far(all, (pages - 1) as nat, page_size, cap) + rows_shown(
            all,
            pages as int,
            page_size,
            cap,
        )
    }
}

/// The pages of a list, fetched in turn, show the whole list: every row once, in its order, and no
/// page more rows than its size.
pub proof fn pages_show_the_whole_list<T>(all: Seq<T>, page_size: int, cap: int)
    requires
        cap >= 1,
    ensures
        quotient_rounded_up(all.len() as int, shown_size(page_size, cap)) >= 0,
        shown_so_far(
            all,
            quotient_rounded_up(all.len() as int, shown_size(page_size, cap)) as nat,
            page_size,
            cap,
        ) == all,
        forall|page: int|
            page >= 1 ==> (#[trigger] rows_shown(all, page, page_size, cap)).len() <= shown_size(
                page_size,
                cap,
            ),
{
    let size = shown_size(page_size, cap);
    let n = quotient_rounded_up(all.len() as int, size);
    if all.len() > 0 {
        lemma_rounded_up(all.len() as int, size);
        lemma_quotient_small(all.len() - 1, size);
    } else {
        vstd::arithmetic::div_mod::lemma_div_basics(size);
    }
    lemma_shown_so_far(all, n as nat, page_size, cap);
    page_holds_rows(n + 1, page_size, cap, all.len() as int);
    assert(all.take(all.len() as int) =~= all);
    assert forall|page: int| page >= 1 implies (#[trigger] rows_shown(
        all,
        page,
        page_size,
        cap,
    )).len() <= size by {
        lemma_rows_before_positive(page, page_size, cap);
    }
}

proof fn lemma_rows_before_positive(page: int, page_size: int, cap: int)
    requires
        page >= 1,
        cap >= 1,
    ensures
        rows_before(page, page_size, cap) >= 0,
{
    let size = shown_size(page_size, cap);
    assert((page - 1) * size >= 0) by (nonlinear_arith)
        requires
            page >= 1,
            size >= 1,
    ;
}

/// The first pages show the rows up to where the next page starts.
proof fn lemma_shown_so_far<T>(all: Seq<T>, pages: nat, page_size: int, cap: int)
    requires
        cap >= 1,
    ensures
        rows_before(pages as int + 1, page_size, cap) < all.len() ==> shown_so_far(
            all,
            pages,
            page_size,
            cap,
        ) == all.take(rows_before(pages as int + 1, page_size, cap)),
        rows_before(pages as int + 1, page_size, cap) >= all.len() ==> shown_so_far(
            all,
            pages,
            page_size,
            cap,
        ) == all.take(all.len() as int),
    decreases pages,
{
    lemma_rows_before_positive(pages as int + 1, page_size, cap);
    if pages == 0 {
        pages_follow_each_other(1, page_size, cap);
        assert(all.take(0) =~= Seq::<T>::empty());
    } else {
        lemma_rows_before_positive(pages as int, page_size, cap);
        lemma_shown_so_far(all, (pages - 1) as nat, page_size, cap);
        pages_follow_each_other(pages as int, page_size, cap);
        let shown = shown_so_far(all, pages, page_size, cap);
        let end = rows_before(pages as int + 1, page_size, cap);
        if end < all.len() {
            assert(shown =~= all.take(end));
        } else {
            assert(shown =~= all.take(all.len() as int));
        }
    }
}

/// The window of a page is the page itself and the size asked for, both brought within their
/// bounds, behind as many rows as the pages before it have.
pub proof fn windows_keep_what_is_within_bounds(
    window: PageWindow,
    page: int,
    page_size: int,
    cap: int,
)
    requires
        cap >= 1,
        window.shows(page, page_size, cap),
    ensures
        page >= 1 ==> window.page == page,
        page < 1 ==> window.page == 1,
        1 <= page_size <= cap ==> window.page_size == page_size,
        page_size < 1 ==> window.page_size == 1,
        page_size > cap ==> window.page_size == cap,
        window.offset == (window.page - 1) * window.page_size,
        1 <= window.page_size <= cap,
{
}

/// As many pages are told of as the rows need: one fewer would not hold them, and these do.
pub proof fn the_pages_hold_the_rows(total: int, size: int)
    requires
        size >= 1,
    ensures
        total <= quotient_rounded_up(total, size) * size,
        (quotient_rounded_up(total, size) - 1) * size < total,
{
    vstd::arithmetic::div_mod::lemma_fundamental_div_mod(-total, size);
    vstd::arithmetic::div_mod::lemma_mod_bound(-total, size);
    let q = (-total) / size;
    let r = (-total) % size;
    assert((-q) * size == -(size * q)) by (nonlinear_arith);
    assert((-q - 1) * size == -(size * q) - size) by (nonlinear_arith);
}

/// A count is the number that the query brought, and zero where it brought none.
pub proof fn counts_are_what_the_query_brought(n: i64, failure: DbFailure)
    ensures
        counted(Ok(Some(n))) == n,
        counted(Ok(None)) == 0,
        counted(Err(failure)) == 0,
{
}

/// A page is answered with every row at its place, and with its number, its size, the total and the
/// number of pages.
pub proof fn pages_tell_their_rows_and_place(
    rows: Vec<Json>,
    window: PageWindow,
    total: i64,
    pages: i64,
    i: int,
    failure: DbFailure,
)
    ensures
        page_answer(Ok(rows), window, total, pages).status == 200,
        page_answer(Ok(rows), window, total, pages).body matches Some(body) && body.size() == 2
            && ({
            let data = body->Object_0[0].1;
            let meta = body->Object_0[1].1;
            &&& body.tells(0, "data"@, data)
            &&& data is List
            &&& data.size() == rows@.len()
            &&& 0 <= i < rows@.len() ==> data.lists(i, rows@[i]@)
            &&& body.tells(1, "meta"@, meta)
            &&& meta.size() == 4
            &&& meta.tells(0, "page"@, JsonView::Int(window.page as int))
            &&& meta.tells(1, "page_size"@, JsonView::Int(window.page_size as int))
            &&& meta.tells(2, "total"@, JsonView::Int(total as int))
            &&& meta.tells(3, "total_pages"@, JsonView::Int(pages as int))
        }),
        page_answer(Err(failure), window, total, pages) == error_answer(500, "Database error"@),
{
}

/// The total that is told is the one that was counted, and the pages that are told are as many as
/// that total needs: one fewer would not hold it, and these do.
pub proof fn the_pages_told_are_those_of_the_total(
    rows: Result<Vec<Json>, DbFailure>,
    window: PageWindow,
    found: Result<Option<i64>, DbFailure>,
    beyond: i64,
)
    requires
        window.page_size >= 1,
    ensures
        ({
            let total = counted(found);
            let pages = pages_told(total, window.page_size, beyond);
            &&& list_answer(rows, window, found, beyond) == page_answer(rows, window, total, pages)
            &&& -0x20_0000_0000_0000 <= total <= 0x20_0000_0000_0000 ==> {
                &&& total <= pages * window.page_size
                &&& (pages - 1) * window.page_size < total
            }
            &&& !(-0x20_0000_0000_0000 <= total <= 0x20_0000_0000_0000) ==> pages == beyond
        }),
{
    let total = counted(found);
    let size = window.page_size as int;
    the_pages_hold_the_rows(total as int, size);
    if -LARGEST_EXACT_TOTAL <= total <= LARGEST_EXACT_TOTAL {
        let n = quotient_rounded_up(total as int, size);
        if total > 0 {
            lemma_rounded_up(total as int, size);
            lemma_quotient_small(total - 1, size);
        } else {
            lemma_quotient_small(-total as int, size);
        }
        assert(n as i64 == n);
    }
}

} // verus!
