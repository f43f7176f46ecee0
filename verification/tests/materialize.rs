//! Materialization of a batch sequence that turns out to be empty: a scale
//! factor of zero makes the scaled generators produce no rows, so their
//! adapters yield zero batches. That materializes to a table with zero rows
//! under the adapter's declared schema — not to an error.

use datafusion_tpch::relations::{lineitem_table, orders_table};
use tpchgen::generators::{LineItemGenerator, OrderGenerator};

#[test]
fn empty_lineitem_generation_is_not_an_error() {
    let p = lineitem_table(LineItemGenerator::new(0.0, 1, 1)).unwrap();
    assert_eq!(p.num_rows(), 0);
    assert_eq!(p.num_columns(), 16);
}

#[test]
fn empty_orders_generation_is_not_an_error() {
    let p = orders_table(OrderGenerator::new(0.0, 1, 1)).unwrap();
    assert_eq!(p.num_rows(), 0);
    assert_eq!(p.num_columns(), 9);
}
