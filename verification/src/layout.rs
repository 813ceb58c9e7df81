//! Row layout constants and page addressing arithmetic.
//!
//! A row at logical index `i` lives in page `i / ROWS_PER_PAGE`, at byte
//! offset `(i % ROWS_PER_PAGE) * ROW_SIZE` within that page.  These formulas
//! are the load-bearing contract of the page store; the lemmas below state
//! the facts about them that the table relies on.

use vstd::prelude::*;
use vstd::arithmetic::div_mod::lemma_div_is_ordered;
use vstd::arithmetic::div_mod::lemma_div_multiples_vanish_fancy;
use vstd::arithmetic::div_mod::lemma_div_plus_one;
use vstd::arithmetic::div_mod::lemma_div_pos_is_pos;
use vstd::arithmetic::div_mod::lemma_fundamental_div_mod;
use vstd::arithmetic::div_mod::lemma_mod_division_less_than_divisor;

verus! {

/// Width of the `id` field: a little-endian 32-bit integer.
pub const ID_SIZE: usize = 4;

/// Capacity of the `username` field in bytes.
pub const USERNAME_SIZE: usize = 32;

/// Capacity of the `email` field in bytes.
pub const EMAIL_SIZE: usize = 255;

/// Exact width of an encoded row: 4 + 32 + 255 bytes.
pub const ROW_SIZE: usize = 291;

/// Size of one page buffer.
pub const PAGE_SIZE: usize = 4096;

/// Whole rows that fit in one page: floor(4096 / 291).
pub const ROWS_PER_PAGE: usize = 14;

/// Number of page slots a table may use.
pub const TABLE_MAX_PAGES: usize = 100;

/// Row capacity of a table: 14 rows per page times 100 pages.
pub const TABLE_MAX_ROWS: usize = 1400;

/// The constants are not independent: each one written as a literal above
/// is fixed by the field widths, the page size, and the page budget.
pub proof fn lemma_layout_consistency()
    ensures
        ROW_SIZE == ID_SIZE + USERNAME_SIZE + EMAIL_SIZE,
        ROWS_PER_PAGE == PAGE_SIZE / ROW_SIZE,
        ROWS_PER_PAGE * ROW_SIZE <= PAGE_SIZE,
        TABLE_MAX_ROWS == ROWS_PER_PAGE * TABLE_MAX_PAGES,
{
}

/// Page index holding the row at logical index `i`.
pub open spec fn page_of(i: int) -> int {
    i / (ROWS_PER_PAGE as int)
}

/// Byte offset of the row at logical index `i` within its page.
pub open spec fn row_offset(i: int) -> int {
    (i % (ROWS_PER_PAGE as int)) * (ROW_SIZE as int)
}

/// Pages that must be allocated to hold `n` rows: ceil(n / ROWS_PER_PAGE).
pub open spec fn pages_needed(n: int) -> int {
    (n + (ROWS_PER_PAGE as int) - 1) / (ROWS_PER_PAGE as int)
}

/// Page index of the row at logical index `i`, as executable code.
pub fn row_page(i: usize) -> (p: usize)
    ensures
        p == page_of(i as int),
{
    i / ROWS_PER_PAGE
}

/// Byte offset of the row at logical index `i`, as executable code.
pub fn row_byte_offset(i: usize) -> (o: usize)
    ensures
        o == row_offset(i as int),
        o + ROW_SIZE <= PAGE_SIZE,
{
    proof {
        lemma_row_window_in_page(i as int);
    }
    (i % ROWS_PER_PAGE) * ROW_SIZE
}

/// A row's window `[row_offset(i), row_offset(i) + ROW_SIZE)` lies within
/// its page.
pub proof fn lemma_row_window_in_page(i: int)
    requires
        0 <= i,
    ensures
        0 <= row_offset(i),
        row_offset(i) + ROW_SIZE <= PAGE_SIZE,
{
    let d = ROWS_PER_PAGE as int;
    lemma_mod_division_less_than_divisor(i, d);
    assert(0 <= i % d <= d - 1);
    assert((i % d) * (ROW_SIZE as int) <= (d - 1) * (ROW_SIZE as int)) by (nonlinear_arith)
        requires
            0 <= i % d <= d - 1,
    ;
}

/// Allocating through row `i` means allocating exactly one page past the
/// row's own page; a row on a fresh page boundary is the first row of a
/// page that `pages_needed(i)` does not yet count.
pub proof fn lemma_pages_needed_succ(i: int)
    requires
        0 <= i,
    ensures
        pages_needed(i + 1) == page_of(i) + 1,
        i % (ROWS_PER_PAGE as int) == 0 ==> pages_needed(i) == page_of(i),
        i % (ROWS_PER_PAGE as int) != 0 ==> pages_needed(i) == page_of(i) + 1,
{
    let d = ROWS_PER_PAGE as int;
    lemma_fundamental_div_mod(i, d);
    lemma_mod_division_less_than_divisor(i, d);
    let q = i / d;
    let r = i % d;
    assert(i + d == d * (q + 1) + r);
    lemma_div_multiples_vanish_fancy(q + 1, r, d);
    assert(pages_needed(i + 1) == (d * (q + 1) + r) / d);
    if r == 0 {
        assert(i + d - 1 == d * q + (d - 1));
        lemma_div_multiples_vanish_fancy(q, d - 1, d);
    } else {
        assert(i + d - 1 == d * (q + 1) + (r - 1));
        lemma_div_multiples_vanish_fancy(q + 1, r - 1, d);
    }
}

/// `pages_needed` never exceeds the page budget while the row count stays
/// within the table's row capacity.
pub proof fn lemma_pages_needed_bound(n: int)
    requires
        0 <= n <= TABLE_MAX_ROWS,
    ensures
        0 <= pages_needed(n) <= TABLE_MAX_PAGES,
{
    let d = ROWS_PER_PAGE as int;
    lemma_div_pos_is_pos(n + d - 1, d);
    lemma_div_is_ordered(n + d - 1, TABLE_MAX_ROWS as int + d - 1, d);
    lemma_div_multiples_vanish_fancy(TABLE_MAX_PAGES as int, d - 1, d);
    assert(TABLE_MAX_ROWS as int + d - 1 == d * (TABLE_MAX_PAGES as int) + (d - 1));
}

/// Every row below the current count lives on an already-needed page.
pub proof fn lemma_page_covered(j: int, n: int)
    requires
        0 <= j < n,
    ensures
        0 <= page_of(j) < pages_needed(n),
{
    let d = ROWS_PER_PAGE as int;
    lemma_div_pos_is_pos(j, d);
    lemma_div_is_ordered(j, n - 1, d);
    lemma_div_plus_one(n - 1, d);
    assert(pages_needed(n) == (d + (n - 1)) / d);
}

/// Two distinct rows of one page occupy disjoint windows, ordered by index.
pub proof fn lemma_window_order(j: int, i: int)
    requires
        0 <= j < i,
        page_of(j) == page_of(i),
    ensures
        row_offset(j) + ROW_SIZE <= row_offset(i),
{
    let d = ROWS_PER_PAGE as int;
    lemma_fundamental_div_mod(j, d);
    lemma_fundamental_div_mod(i, d);
    lemma_mod_division_less_than_divisor(j, d);
    lemma_mod_division_less_than_divisor(i, d);
    assert(j % d < i % d);
    assert((j % d + 1) * (ROW_SIZE as int) <= (i % d) * (ROW_SIZE as int)) by (nonlinear_arith)
        requires
            j % d + 1 <= i % d,
    ;
    assert((j % d + 1) * (ROW_SIZE as int) == (j % d) * (ROW_SIZE as int) + ROW_SIZE) by (nonlinear_arith);
}

} // verus!
