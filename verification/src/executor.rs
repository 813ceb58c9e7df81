//! The operation executor: a pure dispatch over the two typed operations.
//!
//! The front end's parser hands the core an already-validated operation —
//! insert a row, or select everything — and the executor performs it
//! against the table, returning a status for an insert and the decoded
//! rows, in insertion order, for a select.

use vstd::prelude::*;
use crate::layout::TABLE_MAX_ROWS;
use crate::row::Row;
use crate::table::InsertResult;
use crate::table::Table;
use crate::table::spec_insert;

verus! {

/// A typed operation, as produced by the (external) statement parser.
#[derive(Debug, Clone, PartialEq, Eq)]
pub enum Statement {
    /// Append this row to the table.
    Insert(Row),
    /// Report every row of the table, in insertion order.
    Select,
}

/// What executing a statement produced: an insert's status, or the rows a
/// select found.
#[derive(Debug, Clone, PartialEq, Eq)]
pub enum ExecuteResult {
    /// The insert appended its row.
    Success,
    /// The insert was rejected: the table is at capacity.
    TableFull,
    /// The select's rows, in insertion order.
    Rows(Vec<Row>),
}

/// Performs one operation against the table.  An insert appends exactly
/// when the table is below capacity and otherwise leaves it unchanged; a
/// select changes nothing and reports every row in insertion order.
pub fn execute(stmt: Statement, table: &mut Table) -> (res: ExecuteResult)
    requires
        old(table).wf(),
        stmt matches Statement::Insert(row) ==> row.wf(),
    ensures
        final(table).wf(),
        stmt matches Statement::Insert(row) ==> {
            &&& final(table)@ == spec_insert(old(table)@, row@)
            &&& (res == ExecuteResult::Success <==> old(table)@.len() < TABLE_MAX_ROWS)
            &&& (res == ExecuteResult::TableFull <==> old(table)@.len() >= TABLE_MAX_ROWS)
            &&& old(table)@.len() >= TABLE_MAX_ROWS ==> *final(table) == *old(table)
        },
        stmt matches Statement::Select ==> {
            &&& *final(table) == *old(table)
            &&& res matches ExecuteResult::Rows(rows)
            &&& (res matches ExecuteResult::Rows(rows) ==> rows@.len() == old(table)@.len()
                && forall|i: int|
                0 <= i < rows@.len() ==> (#[trigger] rows@[i])@ == old(table)@[i])
        },
{
    match stmt {
        Statement::Insert(row) => {
            match table.insert(&row) {
                InsertResult::Success => ExecuteResult::Success,
                InsertResult::TableFull => ExecuteResult::TableFull,
            }
        },
        Statement::Select => ExecuteResult::Rows(table.scan()),
    }
}

} // verus!
