//! The page store: fixed-size byte buffers allocated lazily in order.
//!
//! Page `p` exists once some row with index in page `p` has been written;
//! because writes are append-only, the allocated pages are always exactly
//! `0 .. pages_needed(rows written)`.  A slot beyond that is unallocated
//! and holds no buffer at all.

use vstd::prelude::*;
use vstd::pervasive::VecAdditionalExecFns;
use crate::layout::PAGE_SIZE;
use crate::layout::ROW_SIZE;
use crate::layout::TABLE_MAX_PAGES;
use crate::layout::TABLE_MAX_ROWS;
use crate::layout::lemma_page_covered;
use crate::layout::lemma_pages_needed_bound;
use crate::layout::lemma_pages_needed_succ;
use crate::layout::lemma_row_window_in_page;
use crate::layout::lemma_window_order;
use crate::layout::page_of;
use crate::layout::pages_needed;
use crate::layout::row_byte_offset;
use crate::layout::row_offset;
use crate::layout::row_page;
use crate::row::copy_window;

verus! {

/// An ordered arena of allocated pages; index `p` holds page `p`.
pub struct Pager {
    pub pages: Vec<Vec<u8>>,
}

impl Pager {
    /// Every allocated page is exactly `PAGE_SIZE` bytes, and no more than
    /// `TABLE_MAX_PAGES` pages are ever allocated.
    pub open spec fn wf(self) -> bool {
        &&& self.pages@.len() <= TABLE_MAX_PAGES
        &&& forall|p: int|
            0 <= p < self.pages@.len() ==> (#[trigger] self.pages@[p])@.len() == PAGE_SIZE
    }

    /// The `ROW_SIZE` bytes of the row at logical index `i`, read from its
    /// page at its byte offset.
    pub open spec fn row_window(self, i: int) -> Seq<u8> {
        self.pages@[page_of(i)]@.subrange(row_offset(i), row_offset(i) + ROW_SIZE as int)
    }

    /// A pager with no pages allocated.
    pub fn new() -> (pager: Pager)
        ensures
            pager.wf(),
            pager.pages@.len() == 0,
    {
        Pager { pages: Vec::new() }
    }

    /// How many pages have been allocated so far.
    pub fn num_pages(&self) -> (n: usize)
        ensures
            n == self.pages@.len(),
    {
        self.pages.len()
    }

    /// Writes the block of row `i`, allocating row `i`'s page first if it
    /// is not there yet.  Requires append-only use: everything up to row
    /// `i` (exclusive) has been written, and nothing past it, so that the
    /// allocated pages are exactly those needed for `i` rows.  All earlier
    /// rows keep their bytes.
    pub fn write_row(&mut self, i: usize, block: &Vec<u8>)
        requires
            old(self).wf(),
            i < TABLE_MAX_ROWS,
            block@.len() == ROW_SIZE,
            old(self).pages@.len() == pages_needed(i as int),
        ensures
            final(self).wf(),
            final(self).pages@.len() == pages_needed(i as int + 1),
            final(self).row_window(i as int) == block@,
            forall|j: int| 0 <= j < i ==> final(self).row_window(j) == old(self).row_window(j),
    {
        let ghost prior = *self;
        proof {
            lemma_pages_needed_succ(i as int);
            lemma_pages_needed_bound(i as int + 1);
            lemma_row_window_in_page(i as int);
            lemma_page_covered(i as int, i as int + 1);
        }
        let page_num = row_page(i);
        let offset = row_byte_offset(i);
        if page_num == self.pages.len() {
            let fresh = zero_page();
            self.pages.push(fresh);
        }
        let mut page = self.pages.pop().unwrap();
        let ghost page_before = page@;
        let mut j: usize = 0;
        while j < ROW_SIZE
            invariant
                j <= ROW_SIZE,
                offset == row_offset(i as int),
                offset + ROW_SIZE <= PAGE_SIZE,
                block@.len() == ROW_SIZE,
                page@.len() == PAGE_SIZE,
                page_before.len() == PAGE_SIZE,
                forall|k: int| offset <= k < offset + j ==> #[trigger] page@[k] == block@[k - offset],
                forall|k: int|
                    0 <= k < PAGE_SIZE && !(offset <= k < offset + j) ==> #[trigger] page@[k]
                        == page_before[k],
            decreases ROW_SIZE - j,
        {
            page.set(offset + j, block[j]);
            j += 1;
        }
        self.pages.push(page);
        proof {
            assert(self.pages@.len() == page_num + 1);
            assert(self.row_window(i as int) =~= block@);
            assert forall|jj: int| 0 <= jj < i implies self.row_window(jj) == prior.row_window(
                jj,
            ) by {
                lemma_page_covered(jj, i as int);
                lemma_row_window_in_page(jj);
                if page_of(jj) == page_of(i as int) {
                    lemma_window_order(jj, i as int);
                    assert(self.pages@[page_of(jj)]@ == page@);
                    assert(prior.pages@[page_of(jj)]@ == page_before);
                    assert(self.row_window(jj) =~= prior.row_window(jj));
                } else {
                    assert(page_of(jj) < page_num);
                    assert(self.pages@[page_of(jj)] == prior.pages@[page_of(jj)]);
                    assert(self.row_window(jj) =~= prior.row_window(jj));
                }
            }
        }
    }

    /// Reads back the block of row `i` from its already-allocated page.
    pub fn read_row(&self, i: usize) -> (block: Vec<u8>)
        requires
            self.wf(),
            i < TABLE_MAX_ROWS,
            page_of(i as int) < self.pages@.len(),
        ensures
            block@ == self.row_window(i as int),
            block@.len() == ROW_SIZE,
    {
        proof {
            lemma_row_window_in_page(i as int);
            lemma_page_covered(i as int, i as int + 1);
        }
        let page_num = row_page(i);
        let offset = row_byte_offset(i);
        let page = &self.pages[page_num];
        copy_window(page.as_slice(), offset, ROW_SIZE)
    }
}

/// A fresh all-zero page buffer.
fn zero_page() -> (page: Vec<u8>)
    ensures
        page@.len() == PAGE_SIZE,
        forall|k: int| 0 <= k < page@.len() ==> page@[k] == 0u8,
{
    let mut page: Vec<u8> = Vec::new();
    let mut i: usize = 0;
    while i < PAGE_SIZE
        invariant
            i <= PAGE_SIZE,
            page@.len() == i,
            forall|k: int| 0 <= k < i ==> page@[k] == 0u8,
        decreases PAGE_SIZE - i,
    {
        page.push(0u8);
        i += 1;
    }
    page
}

} // verus!
