use vstd::prelude::*;

use crate::errors::{CallerError, OpError, ResourceError};
use crate::resource::Resource;

verus! {

/// A single transferable unit of work over the confined resource: an
/// ownership-transferring value capturing everything the worker needs to
/// run it, executed at most once, always on the worker's thread, never
/// concurrently with another operation.
#[derive(Clone, Copy, Debug, PartialEq, Eq, Structural)]
pub enum Operation {
    /// Append a new empty table; yields the new table's identifier.
    CreateTable,
    /// Append `value` to table `table`; yields the new row's identifier.
    Insert { table: u64, value: u64 },
    /// Add one to the cell at `row` in `table`; yields the new value.
    Increment { table: u64, row: u64 },
    /// Count the rows of table `table`; yields the count.
    CountRows { table: u64 },
    /// Read the cell at `row` in `table`; yields its value.
    ReadRow { table: u64, row: u64 },
    /// Fail with the caller's own error value, touching nothing: the shape
    /// a caller's operation logic takes when it gives up for reasons of
    /// its own.
    Fail { code: u64 },
}

impl Operation {
    /// Whether this operation never changes the resource, whatever state
    /// the resource is in: the shared, read-only delegation shape.
    pub open spec fn is_read_only(self) -> bool {
        match self {
            Operation::CreateTable => false,
            Operation::Insert { .. } => false,
            Operation::Increment { .. } => false,
            Operation::CountRows { .. } => true,
            Operation::ReadRow { .. } => true,
            Operation::Fail { .. } => true,
        }
    }
}

/// The resource state after executing `op` against state `t`. An operation
/// that fails leaves the state unchanged.
pub open spec fn apply(op: Operation, t: Seq<Seq<u64>>) -> Seq<Seq<u64>> {
    match op {
        Operation::CreateTable => t.push(Seq::<u64>::empty()),
        Operation::Insert { table, value } => if (table as int) < t.len() {
            t.update(table as int, t[table as int].push(value))
        } else {
            t
        },
        Operation::Increment { table, row } => if (table as int) < t.len() && (row as int)
            < t[table as int].len() && t[table as int][row as int] < u64::MAX {
            t.update(
                table as int,
                t[table as int].update(row as int, (t[table as int][row as int] + 1) as u64),
            )
        } else {
            t
        },
        Operation::CountRows { .. } => t,
        Operation::ReadRow { .. } => t,
        Operation::Fail { .. } => t,
    }
}

/// The result executing `op` against state `t` reports back to its caller.
pub open spec fn outcome(op: Operation, t: Seq<Seq<u64>>) -> Result<u64, OpError> {
    match op {
        Operation::CreateTable => Ok(t.len() as u64),
        Operation::Insert { table, value } => if (table as int) < t.len() {
            Ok(t[table as int].len() as u64)
        } else {
            Err(OpError::Resource(ResourceError::NoSuchTable))
        },
        Operation::Increment { table, row } => if (table as int) >= t.len() {
            Err(OpError::Resource(ResourceError::NoSuchTable))
        } else if (row as int) >= t[table as int].len() {
            Err(OpError::Resource(ResourceError::NoSuchRow))
        } else if t[table as int][row as int] == u64::MAX {
            Err(OpError::Resource(ResourceError::Overflow))
        } else {
            Ok((t[table as int][row as int] + 1) as u64)
        },
        Operation::CountRows { table } => if (table as int) < t.len() {
            Ok(t[table as int].len() as u64)
        } else {
            Err(OpError::Resource(ResourceError::NoSuchTable))
        },
        Operation::ReadRow { table, row } => if (table as int) >= t.len() {
            Err(OpError::Resource(ResourceError::NoSuchTable))
        } else if (row as int) >= t[table as int].len() {
            Err(OpError::Resource(ResourceError::NoSuchRow))
        } else {
            Ok(t[table as int][row as int])
        },
        Operation::Fail { code } => Err(OpError::Custom(CallerError { code })),
    }
}

/// A read-only operation leaves any resource state exactly as it found it.
pub proof fn lemma_read_only_applies_nothing(op: Operation, t: Seq<Seq<u64>>)
    requires
        op.is_read_only(),
    ensures
        apply(op, t) == t,
{
}

/// Execute one operation against the resource, on the worker's thread:
/// the resource moves to exactly the state the model `apply` gives, and
/// the reported result is exactly what the model `outcome` gives.
pub fn execute_operation(res: &mut Resource, op: &Operation) -> (r: Result<u64, OpError>)
    ensures
        final(res)@ == apply(*op, old(res)@),
        r == outcome(*op, old(res)@),
        op.is_read_only() ==> final(res)@ == old(res)@,
{
    match op {
        Operation::CreateTable => {
            let id = res.create_table();
            Ok(id)
        },
        Operation::Insert { table, value } => match res.insert(*table, *value) {
            Ok(row) => Ok(row),
            Err(re) => Err(OpError::Resource(re)),
        },
        Operation::Increment { table, row } => match res.increment(*table, *row) {
            Ok(v) => Ok(v),
            Err(re) => Err(OpError::Resource(re)),
        },
        Operation::CountRows { table } => match res.count_rows(*table) {
            Ok(n) => Ok(n),
            Err(re) => Err(OpError::Resource(re)),
        },
        Operation::ReadRow { table, row } => match res.read_row(*table, *row) {
            Ok(v) => Ok(v),
            Err(re) => Err(OpError::Resource(re)),
        },
        Operation::Fail { code } => Err(OpError::Custom(CallerError { code: *code })),
    }
}

} // verus!
