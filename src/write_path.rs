//! The three write strategies: an ad hoc insert, an insert through the
//! cached prepared statement, and a logged batch of prepared inserts.
use vstd::prelude::*;
use scylla::statement::batch::{Batch, BatchType};
use scylla::statement::prepared::PreparedStatement;
use crate::record::{apply_writes, law_write_then_read, law_writes_visible, read_back, BoundRow, Record, RecordView, row_view, TableModel};

verus! {

#[verifier::external_type_specification]
#[verifier::external_body]
pub struct ExBatch(Batch);

#[verifier::external_type_specification]
#[verifier::external_body]
pub struct ExPreparedStatement(PreparedStatement);

/// The number of statements that a batch holds.
pub uninterp spec fn batch_len(b: Batch) -> nat;

/// Whether a batch is of the logged kind.
pub uninterp spec fn batch_logged(b: Batch) -> bool;

/// The statement that every write strategy executes, with one placeholder
/// per column.
pub const INSERT_STATEMENT: &'static str = "INSERT INTO demo.items (id, name, value) VALUES (?, ?, ?)";

/// The statement that the streaming read executes.
pub const SELECT_STATEMENT: &'static str = "SELECT id, name, value FROM demo.items";

/// Relies on `Batch::new`: it makes a batch of the given type whose
/// statement list is empty.
#[verifier::external_body]
fn new_logged_batch() -> (b: Batch)
    ensures
        batch_len(b) == 0,
        batch_logged(b),
{
    Batch::new(BatchType::Logged)
}

/// Relies on `Batch::append_statement`: it pushes one statement onto the
/// batch's list and leaves its type as it was.
#[verifier::external_body]
fn append_prepared(b: &mut Batch, stmt: &PreparedStatement)
    ensures
        batch_len(*final(b)) == batch_len(*old(b)) + 1,
        batch_logged(*final(b)) == batch_logged(*old(b)),
{
    b.append_statement(stmt.clone())
}

/// The rows that a sequence of records binds, one per record, in order.
pub open spec fn rows_of(records: Seq<Record>) -> Seq<RecordView> {
    records.map_values(|r: Record| r@)
}

/// The bound values of a single insert, ad hoc or prepared: exactly one row,
/// the record's own.
pub fn single_write_values(record: &Record) -> (r: Vec<BoundRow>)
    ensures
        r@.map_values(|row: BoundRow| row_view(row)) == seq![record@],
{
    let mut rows: Vec<BoundRow> = Vec::new();
    rows.push(record.bound_values());
    assert(rows@.map_values(|row: BoundRow| row_view(row)) =~= seq![record@]);
    rows
}

/// A logged batch that references `stmt` once per record, with the bound
/// values of the records in the same order. Statements and values stay
/// aligned: the batch holds as many statements as there are value rows.
/// An empty input gives an empty batch, which is a valid no-op write.
pub fn build_batch(stmt: &PreparedStatement, records: &Vec<Record>) -> (r: (Batch, Vec<BoundRow>))
    ensures
        batch_logged(r.0),
        batch_len(r.0) == records@.len(),
        r.1@.len() == records@.len(),
        r.1@.map_values(|row: BoundRow| row_view(row)) == rows_of(records@),
{
    let mut batch = new_logged_batch();
    let mut rows: Vec<BoundRow> = Vec::with_capacity(records.len());
    let mut i: usize = 0;
    while i < records.len()
        invariant
            i <= records@.len(),
            batch_logged(batch),
            batch_len(batch) == i,
            rows@.len() == i,
            forall|j: int| 0 <= j < i ==> #[trigger] row_view(rows@[j]) == records@[j]@,
        decreases records@.len() - i,
    {
        append_prepared(&mut batch, stmt);
        rows.push(records[i].bound_values());
        i = i + 1;
    }
    assert(rows@.map_values(|row: BoundRow| row_view(row)) =~= rows_of(records@));
    (batch, rows)
}

/// The batch to send for a batch write, or `None` when there are no records:
/// an empty batch write succeeds without a store call and changes nothing.
pub fn batch_for(stmt: &PreparedStatement, records: &Vec<Record>) -> (r: Option<(Batch, Vec<BoundRow>)>)
    ensures
        r is None <==> records@.len() == 0,
        r matches Some(p) ==> {
            &&& batch_logged(p.0)
            &&& batch_len(p.0) == records@.len()
            &&& p.1@.map_values(|row: BoundRow| row_view(row)) == rows_of(records@)
        },
{
    if records.len() == 0 {
        None
    } else {
        Some(build_batch(stmt, records))
    }
}

/// Whichever strategy writes a record, reading its key afterwards yields the
/// record: a single insert binds the record's row alone, and a batch of that
/// one record binds the same row.
pub proof fn law_each_strategy_reads_back(t: TableModel, r: Record)
    ensures
        read_back(apply_writes(t, seq![r@]), r.id) == Some(r@),
        read_back(apply_writes(t, rows_of(seq![r])), r.id) == Some(r@),
{
    law_write_then_read(t, r@);
    assert(rows_of(seq![r]) =~= seq![r@]);
}

/// A batch binds one row per record; once it succeeds, each record whose key
/// no later record of the batch repeats reads back as written, and keys the
/// batch does not name are left as they were.
pub proof fn law_batch_rows_read_back(t: TableModel, records: Seq<Record>)
    ensures
        rows_of(records).len() == records.len(),
        forall|i: int|
            0 <= i < records.len() && (forall|j: int| i < j < records.len() ==> records[j].id != records[i].id)
                ==> #[trigger] read_back(apply_writes(t, rows_of(records)), records[i].id) == Some(records[i]@),
        forall|k: u128|
            (forall|j: int| 0 <= j < records.len() ==> records[j].id != k)
                ==> #[trigger] read_back(apply_writes(t, rows_of(records)), k) == read_back(t, k),
{
    let rows = rows_of(records);
    law_writes_visible(t, rows);
    assert forall|i: int|
        0 <= i < records.len() && (forall|j: int| i < j < records.len() ==> records[j].id != records[i].id)
            implies #[trigger] read_back(apply_writes(t, rows), records[i].id) == Some(records[i]@) by {
        assert(rows[i] == records[i]@);
        assert forall|j: int| i < j < rows.len() implies #[trigger] rows[j].id != rows[i].id by {
            assert(rows[j] == records[j]@);
        }
        assert(read_back(apply_writes(t, rows), rows[i].id) == Some(rows[i]));
    }
    assert forall|k: u128|
        (forall|j: int| 0 <= j < records.len() ==> records[j].id != k)
            implies #[trigger] read_back(apply_writes(t, rows), k) == read_back(t, k) by {
        assert forall|j: int| 0 <= j < rows.len() implies #[trigger] rows[j].id != k by {
            assert(rows[j] == records[j]@);
        }
    }
}

} // verus!
