//! Pages of rows, as the server counts them.

use crate::text::{cat2, cat6, decimal, show};
use vstd::prelude::*;

verus! {

/// How many pages `total` rows fill, at least one.
pub open spec fn pages(total: u32, per_page: u32) -> int {
    if per_page == 0 || total == 0 {
        1
    } else if total % per_page == 0 {
        total as int / per_page as int
    } else {
        total as int / per_page as int + 1
    }
}

/// There is at least one page, and no more than rows.
pub proof fn lemma_pages(total: u32, per_page: u32)
    ensures
        1 <= pages(total, per_page) <= u32::MAX,
{
    if per_page > 0 && total > 0 {
        vstd::arithmetic::div_mod::lemma_fundamental_div_mod(total as int, per_page as int);
        let q = total as int / per_page as int;
        vstd::arithmetic::div_mod::lemma_div_is_ordered_by_denominator(
            total as int,
            1,
            per_page as int,
        );
        if per_page >= 2 {
            vstd::arithmetic::div_mod::lemma_div_is_ordered_by_denominator(
                total as int,
                2,
                per_page as int,
            );
        }
        if total as int % per_page as int == 0 && q <= 0 {
            assert(per_page as int * q <= 0) by (nonlinear_arith)
                requires
                    q <= 0,
                    per_page as int > 0,
            ;
        }
        assert(total as int % 1 == 0);
    }
}

/// How many pages `total` rows fill, at least one.
pub fn page_count(total: u32, per_page: u32) -> (res: u32)
    ensures
        res == pages(total, per_page),
{
    if per_page == 0 || total == 0 {
        return 1;
    }
    proof {
        lemma_pages(total, per_page);
    }
    if total % per_page == 0 {
        total / per_page
    } else {
        total / per_page + 1
    }
}

/// `page N of M · X total`, with a note while a read is under way.
pub open spec fn page_status(
    page: u32,
    per_page: u32,
    total: u32,
    loaded: nat,
    loading: bool,
) -> Seq<char> {
    let count = if total > 0 {
        total as nat
    } else {
        loaded
    };
    let head = " page "@ + decimal(
        if page < 1 {
            1
        } else {
            page as nat
        },
    ) + " of "@ + decimal(pages(total, per_page) as nat) + " · "@ + decimal(count) + " total "@;
    if loading {
        head + "· loading… "@
    } else {
        head
    }
}

/// `page N of M · X total`, with a note while a read is under way.
pub fn page_status_line(page: u32, per_page: u32, total: u32, loaded: usize, loading: bool) -> (res:
    String)
    ensures
        res@ == page_status(page, per_page, total, loaded as nat, loading),
{
    let count: u64 = if total > 0 {
        total as u64
    } else {
        loaded as u64
    };
    let at: u64 = if page < 1 {
        1
    } else {
        page as u64
    };
    let head = cat6(
        " page ",
        show(at).as_str(),
        " of ",
        show(page_count(total, per_page) as u64).as_str(),
        " · ",
        show(count).as_str(),
    );
    let head = cat2(head.as_str(), " total ");
    if loading {
        cat2(head.as_str(), "· loading… ")
    } else {
        head
    }
}

/// The pages hold the rows: as many pages as are there hold them all, and one fewer
/// does not.
pub proof fn the_pages_hold_the_rows(total: u32, per_page: u32)
    requires
        per_page > 0,
        total > 0,
    ensures
        pages(total, per_page) * per_page >= total,
        (pages(total, per_page) - 1) * per_page < total,
{
    let t = total as int;
    let p = per_page as int;
    vstd::arithmetic::div_mod::lemma_fundamental_div_mod(t, p);
    let q = t / p;
    let r = t % p;
    assert(t == p * q + r);
    assert(0 <= r < p);
    assert((q + 1) * p == p * q + p) by (nonlinear_arith);
    assert(q * p == p * q) by (nonlinear_arith);
    assert((q - 1) * p == p * q - p) by (nonlinear_arith);
}

/// The bottom line names the page, never below the first, the number of pages that hold
/// the rows, and the rows: as many as the server counts, or as were loaded where it
/// counts none.
pub proof fn the_bottom_line_counts(
    page: u32,
    per_page: u32,
    total: u32,
    loaded: usize,
    loading: bool,
    last: nat,
    line: String,
)
    requires
        per_page > 0,
        page > 0,
        total > 0,
        last * per_page >= total,
        (last - 1) * per_page < total,
        call_ensures(page_status_line, (page, per_page, total, loaded, loading), line),
    ensures
        line@ == " page "@ + decimal(page as nat) + " of "@ + decimal(last) + " · "@ + decimal(
            total as nat,
        ) + " total "@ + (if loading {
            "· loading… "@
        } else {
            ""@
        }),
{
    reveal_strlit("");
    the_pages_hold_the_rows(total, per_page);
    lemma_pages(total, per_page);
    let m = pages(total, per_page);
    let p = per_page as int;
    let k = last as int;
    if m < k {
        assert((k - 1) * p >= m * p) by (nonlinear_arith)
            requires
                m <= k - 1,
                p > 0,
        ;
    }
    if k < m {
        assert((m - 1) * p >= k * p) by (nonlinear_arith)
            requires
                k <= m - 1,
                p > 0,
        ;
    }
    assert(page_status(page, per_page, total, loaded as nat, false) + ""@ =~= page_status(
        page,
        per_page,
        total,
        loaded as nat,
        false,
    ));
}

/// Without rows there is one page, and the line counts what was loaded.
pub proof fn no_rows_fill_one_page(per_page: u32, loaded: usize, line: String)
    requires
        call_ensures(page_status_line, (0, per_page, 0, loaded, false), line),
    ensures
        line@ == " page "@ + decimal(1) + " of "@ + decimal(1) + " · "@ + decimal(loaded as nat)
            + " total "@,
{
}

} // verus!
