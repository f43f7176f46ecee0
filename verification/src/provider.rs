//! The scan-only facade over a materialized table.
//!
//! A provider wraps exactly one materialized table and exposes read access to
//! its schema, its resident batch and its shape. No mutating operation exists;
//! once constructed, the wrapped data never changes, so a provider can be
//! shared freely across concurrent scans.

use vstd::prelude::*;

use crate::batch::{Batch, MaterializedTable, TableSchema};

verus! {

/// An immutable, scan-only view over one materialized table: the unit a
/// catalog entry points at.
pub struct TpchTableProvider {
    /// The wrapped table. Treated as immutable after construction.
    pub table: MaterializedTable,
}

impl TpchTableProvider {
    /// The wrapped table's recorded shape matches its resident batch.
    pub open spec fn wf(&self) -> bool {
        self.table.wf()
    }

    /// Wraps a fully materialized table.
    pub fn new(table: MaterializedTable) -> (r: Self)
        ensures
            r.table == table,
    {
        TpchTableProvider { table }
    }

    /// Scan, part one: the schema of the wrapped table.
    pub fn scan_schema(&self) -> (r: &TableSchema)
        ensures
            *r == self.table.schema,
    {
        &self.table.schema
    }

    /// Scan, part two: the full resident batch of the wrapped table.
    pub fn scan_batch(&self) -> (r: &Batch)
        ensures
            *r == self.table.batch,
    {
        &self.table.batch
    }

    /// The number of rows of the wrapped table.
    pub fn num_rows(&self) -> (r: usize)
        ensures
            r == self.table.rows,
    {
        self.table.rows
    }

    /// The number of columns of the wrapped table.
    pub fn num_columns(&self) -> (r: usize)
        ensures
            r == self.table.cols,
    {
        self.table.cols
    }
}

} // verus!
