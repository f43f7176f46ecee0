//! Partition consistency: a whole-table run and the union of all its
//! partitions hold the same number of rows. The nation and region generators
//! ignore partitioning (every partition yields the full fixed table), so the
//! scaled relations are exercised here.

use datafusion_tpch::relations::{customer_table, orders_table, supplier_table};
use tpchgen::generators::{CustomerGenerator, OrderGenerator, SupplierGenerator};

#[test]
fn supplier_partitions_cover_whole_table() {
    let whole = supplier_table(SupplierGenerator::new(1.0, 1, 1)).unwrap().num_rows();
    let mut sum = 0;
    for part in 1..=4 {
        sum += supplier_table(SupplierGenerator::new(1.0, part, 4)).unwrap().num_rows();
    }
    assert_eq!(whole, 10000);
    assert_eq!(sum, whole);
}

#[test]
fn customer_partitions_cover_whole_table() {
    let whole = customer_table(CustomerGenerator::new(0.1, 1, 1)).unwrap().num_rows();
    let mut sum = 0;
    for part in 1..=5 {
        sum += customer_table(CustomerGenerator::new(0.1, part, 5)).unwrap().num_rows();
    }
    assert_eq!(sum, whole);
}

#[test]
fn orders_partitions_cover_whole_table() {
    let whole = orders_table(OrderGenerator::new(0.1, 1, 1)).unwrap().num_rows();
    let mut sum = 0;
    for part in 1..=3 {
        sum += orders_table(OrderGenerator::new(0.1, part, 3)).unwrap().num_rows();
    }
    assert_eq!(sum, whole);
}
