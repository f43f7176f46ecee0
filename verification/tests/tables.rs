//! Reference row and column counts of the eight relations at scale factor
//! 1.0 with default whole-table partitioning, and determinism of repeated
//! invocations.

use datafusion_tpch::relations::{
    customer_table, lineitem_table, nation_table, orders_table, part_table, partsupp_table,
    region_table, supplier_table,
};
use tpchgen::generators::{
    CustomerGenerator, LineItemGenerator, NationGenerator, OrderGenerator, PartGenerator,
    PartSuppGenerator, RegionGenerator, SupplierGenerator,
};

#[test]
fn nation_scale_one_counts() {
    let p = nation_table(NationGenerator::new(1.0, 1, 1)).unwrap();
    assert_eq!(p.num_rows(), 25);
    assert_eq!(p.num_columns(), 4);
}

#[test]
fn region_scale_one_counts() {
    let p = region_table(RegionGenerator::new(1.0, 1, 1)).unwrap();
    assert_eq!(p.num_rows(), 5);
    assert_eq!(p.num_columns(), 3);
}

#[test]
fn supplier_scale_one_counts() {
    let p = supplier_table(SupplierGenerator::new(1.0, 1, 1)).unwrap();
    assert_eq!(p.num_rows(), 10000);
    assert_eq!(p.num_columns(), 7);
}

#[test]
fn customer_scale_one_counts() {
    let p = customer_table(CustomerGenerator::new(1.0, 1, 1)).unwrap();
    assert_eq!(p.num_rows(), 150000);
    assert_eq!(p.num_columns(), 8);
}

#[test]
fn part_scale_one_counts() {
    let p = part_table(PartGenerator::new(1.0, 1, 1)).unwrap();
    assert_eq!(p.num_rows(), 200000);
    assert_eq!(p.num_columns(), 9);
}

#[test]
fn partsupp_scale_one_counts() {
    let p = partsupp_table(PartSuppGenerator::new(1.0, 1, 1)).unwrap();
    assert_eq!(p.num_rows(), 800000);
    assert_eq!(p.num_columns(), 5);
}

#[test]
fn orders_counts_match_generator() {
    // The full scale-1.0 orders table (1500000 rows) does not reliably fit
    // the test budget, so its reference count stays unchecked here; at a
    // tenth of that scale the materialized row count must equal what the row
    // generator itself produces, counted independently.
    let expected = OrderGenerator::new(0.1, 1, 1).into_iter().count();
    let p = orders_table(OrderGenerator::new(0.1, 1, 1)).unwrap();
    assert_eq!(p.num_rows(), expected);
    assert_eq!(p.num_columns(), 9);
}

#[test]
fn lineitem_counts_match_generator() {
    // The full scale-1.0 lineitem table (6001215 rows) does not fit the test
    // budget, so its reference count stays unchecked here; at a twentieth of
    // that scale the materialized row count must equal what the row
    // generator itself produces, counted independently.
    let expected = LineItemGenerator::new(0.05, 1, 1).into_iter().count();
    let p = lineitem_table(LineItemGenerator::new(0.05, 1, 1)).unwrap();
    assert_eq!(p.num_rows(), expected);
    assert_eq!(p.num_columns(), 16);
}

#[test]
fn identical_invocations_give_identical_counts() {
    let a = supplier_table(SupplierGenerator::new(0.2, 1, 1)).unwrap();
    let b = supplier_table(SupplierGenerator::new(0.2, 1, 1)).unwrap();
    assert_eq!(a.num_rows(), b.num_rows());
    assert_eq!(a.num_columns(), b.num_columns());

    let a = orders_table(OrderGenerator::new(0.05, 2, 4)).unwrap();
    let b = orders_table(OrderGenerator::new(0.05, 2, 4)).unwrap();
    assert_eq!(a.num_rows(), b.num_rows());
    assert_eq!(a.num_columns(), b.num_columns());
}
