//! The table: a page store plus a row count, with append-only insert and
//! in-order scan.
//!
//! A table's abstract value is the sequence of rows it holds, in insertion
//! order.  `insert` appends while the table is below capacity and rejects
//! the row (leaving the table untouched) once `TABLE_MAX_ROWS` is reached;
//! `scan` decodes the rows back without consuming or changing anything.

use vstd::prelude::*;
use crate::layout::TABLE_MAX_ROWS;
use crate::layout::lemma_page_covered;
use crate::layout::lemma_pages_needed_succ;
use crate::layout::pages_needed;
use crate::pager::Pager;
use crate::row::Row;
use crate::row::RowV;
use crate::row::decode;
use crate::row::encode;
use crate::row::lemma_round_trip;
use crate::row::spec_decode;

verus! {

/// What an insert reports: the row was appended, or the table was already
/// at capacity and was left unchanged.
#[derive(Debug, Clone, Copy, PartialEq, Eq, Structural)]
pub enum InsertResult {
    Success,
    TableFull,
}

/// What inserting `r` does to a table holding the rows `s`: append below
/// capacity, reject (no change) at capacity.
pub open spec fn spec_insert(s: Seq<RowV>, r: RowV) -> Seq<RowV> {
    if s.len() < TABLE_MAX_ROWS {
        s.push(r)
    } else {
        s
    }
}

/// The in-memory table: a row counter and the pages the rows live in.
pub struct Table {
    pub num_rows: usize,
    pub pager: Pager,
}

impl View for Table {
    type V = Seq<RowV>;

    /// The rows the table holds, in insertion order, read off the pages.
    open spec fn view(&self) -> Seq<RowV> {
        Seq::new(self.num_rows as nat, |i: int| spec_decode(self.pager.row_window(i)))
    }
}

impl Table {
    /// The row count never exceeds capacity, and exactly the pages needed
    /// for the rows written so far are allocated.
    pub open spec fn wf(self) -> bool {
        &&& self.num_rows <= TABLE_MAX_ROWS
        &&& self.pager.wf()
        &&& self.pager.pages@.len() == pages_needed(self.num_rows as int)
    }

    /// An empty table with no pages allocated.
    pub fn new() -> (t: Table)
        ensures
            t.wf(),
            t@ == Seq::<RowV>::empty(),
    {
        let t = Table { num_rows: 0, pager: Pager::new() };
        assert(t@ =~= Seq::<RowV>::empty());
        t
    }

    /// How many rows the table holds.
    pub fn num_rows(&self) -> (n: usize)
        ensures
            n == self@.len(),
    {
        self.num_rows
    }

    /// How many pages are allocated: exactly those needed for the rows
    /// held, so a fresh page appears only when a row first lands on it.
    pub fn num_pages(&self) -> (n: usize)
        requires
            self.wf(),
        ensures
            n == pages_needed(self@.len() as int),
    {
        self.pager.num_pages()
    }

    /// Appends `row` at the current end of the table, unless the table is
    /// full, in which case nothing changes.  Succeeds if and only if the
    /// table held fewer than `TABLE_MAX_ROWS` rows.
    pub fn insert(&mut self, row: &Row) -> (res: InsertResult)
        requires
            old(self).wf(),
            row.wf(),
        ensures
            final(self).wf(),
            final(self)@ == spec_insert(old(self)@, row@),
            res == InsertResult::Success <==> old(self)@.len() < TABLE_MAX_ROWS,
            old(self)@.len() < TABLE_MAX_ROWS ==> final(self)@ == old(self)@.push(row@),
            old(self)@.len() >= TABLE_MAX_ROWS ==> res == InsertResult::TableFull && *final(self)
                == *old(self),
    {
        if self.num_rows >= TABLE_MAX_ROWS {
            return InsertResult::TableFull;
        }
        let ghost prior = *self;
        let idx = self.num_rows;
        let block = encode(row);
        self.pager.write_row(idx, &block);
        self.num_rows = idx + 1;
        proof {
            lemma_pages_needed_succ(idx as int);
            lemma_round_trip(row@);
            assert(self@[idx as int] == row@);
            assert(self@ =~= prior@.push(row@));
        }
        InsertResult::Success
    }

    /// Decodes all rows in insertion order.  The result is determined by
    /// the table's current contents alone, so repeated scans with no
    /// intervening insert yield the same sequence.
    pub fn scan(&self) -> (rows: Vec<Row>)
        requires
            self.wf(),
        ensures
            rows@.len() == self@.len(),
            forall|i: int| 0 <= i < rows@.len() ==> (#[trigger] rows@[i])@ == self@[i],
    {
        let mut rows: Vec<Row> = Vec::new();
        let mut i: usize = 0;
        while i < self.num_rows
            invariant
                self.wf(),
                i <= self.num_rows,
                rows@.len() == i,
                forall|k: int| 0 <= k < i ==> (#[trigger] rows@[k])@ == self@[k],
            decreases self.num_rows - i,
        {
            proof {
                lemma_page_covered(i as int, self.num_rows as int);
            }
            let block = self.pager.read_row(i);
            let row = decode(block.as_slice());
            rows.push(row);
            i += 1;
        }
        rows
    }
}

/// The rows `rs`, inserted in order into a table already holding `s`.
pub open spec fn spec_insert_all(s: Seq<RowV>, rs: Seq<RowV>) -> Seq<RowV>
    decreases rs.len(),
{
    if rs.len() == 0 {
        s
    } else {
        spec_insert_all(spec_insert(s, rs[0]), rs.skip(1))
    }
}

/// While there is room for all of them, inserting rows one after another
/// appends them in exactly the given order.
pub proof fn lemma_insert_all_appends(s: Seq<RowV>, rs: Seq<RowV>)
    requires
        s.len() + rs.len() <= TABLE_MAX_ROWS,
    ensures
        spec_insert_all(s, rs) == s + rs,
    decreases rs.len(),
{
    if rs.len() == 0 {
        assert(spec_insert_all(s, rs) =~= s + rs);
    } else {
        lemma_insert_all_appends(s.push(rs[0]), rs.skip(1));
        assert(s.push(rs[0]) + rs.skip(1) =~= s + rs);
    }
}

/// Append-only ordering law: inserting the rows `rs` (at most the table
/// capacity) into an empty table yields exactly `rs` — no reordering,
/// filtering, or deduplication — and that is what a scan then reports.
pub proof fn lemma_append_only_ordering(rs: Seq<RowV>)
    requires
        rs.len() <= TABLE_MAX_ROWS,
    ensures
        spec_insert_all(Seq::<RowV>::empty(), rs) == rs,
{
    lemma_insert_all_appends(Seq::<RowV>::empty(), rs);
    assert(Seq::<RowV>::empty() + rs =~= rs);
}

/// Idempotent scan law: any two scans of a table holding the rows `t`
/// report the same sequence, element for element.
pub proof fn lemma_scan_idempotent(t: Seq<RowV>, first: Seq<RowV>, second: Seq<RowV>)
    requires
        first.len() == t.len(),
        forall|i: int| 0 <= i < t.len() ==> #[trigger] first[i] == t[i],
        second.len() == t.len(),
        forall|i: int| 0 <= i < t.len() ==> #[trigger] second[i] == t[i],
    ensures
        first == second,
{
    assert(first =~= second);
}

} // verus!
