//! The multi-table orchestrator.
//!
//! One invocation materializes all eight TPC-H relations, registers each
//! under its fixed name in the injected catalog — nation, customer, orders,
//! lineitem, part, partsupp, supplier, region, in that order — and returns a
//! one-column meta-table listing the registered names in the same order.
//! When none of the eight names is taken beforehand, the run is owed to
//! succeed.
//!
//! On a failure the orchestrator aborts immediately and surfaces it; tables
//! registered before the failure stay registered. There is no rollback: this
//! is a deliberate, accepted inconsistency, not a transactional guarantee.

use vstd::prelude::*;

use crate::args::TpchError;
use crate::batch::{
    batch_num_columns, batch_num_rows, batch_schema, cols_of, rows_of, Batch, MaterializedTable,
};
use crate::catalog::Catalog;
use crate::provider::TpchTableProvider;
use crate::relations::{
    customer_table, lineitem_table, nation_table, orders_table, part_table, partsupp_table,
    region_table, supplier_table,
};
use crate::relations::{
    customer_total_rows, lineitem_total_rows, nation_total_rows, order_total_rows,
    part_total_rows, partsupp_total_rows, region_total_rows, supplier_total_rows,
};
use crate::relations::{
    customer_parts_nonzero, lineitem_parts_nonzero, order_parts_nonzero, part_parts_nonzero,
    partsupp_parts_nonzero, supplier_parts_nonzero,
};
use std::sync::Arc;
use tpchgen::generators::{
    CustomerGenerator, LineItemGenerator, NationGenerator, OrderGenerator, PartGenerator,
    PartSuppGenerator, RegionGenerator, SupplierGenerator,
};

verus! {

/// For a batch holding a single string column: the column's values, row by
/// row, each as a character sequence.
pub uninterp spec fn utf8_column(b: Batch) -> Seq<Seq<char>>;

/// For a batch holding a single string column: the column's name.
pub uninterp spec fn utf8_column_name(b: Batch) -> Seq<char>;

/// For a batch holding a single string column: whether the column is
/// declared non-nullable.
pub uninterp spec fn utf8_column_non_nullable(b: Batch) -> bool;

/// Relies on arrow's `StringArray::from` and `RecordBatch::try_new`: a batch
/// built from one non-nullable string column holds one row per value, in
/// order, under a single-field schema carrying the given column name. With
/// the payload bounded — each value at most a hundred characters, so at most
/// four hundred UTF-8 bytes, and the total kept below the column's 32-bit
/// offset range — the construction cannot fail.
#[verifier::external_body]
fn utf8_list_batch(column: &str, values: &Vec<String>) -> (r: Result<Batch, String>)
    requires
        values@.len() * 400 < 0x8000_0000,
        forall|i: int| 0 <= i < values@.len() ==> #[trigger] values@[i]@.len() <= 100,
    ensures
        r is Ok,
        r matches Ok(b) ==> rows_of(b) == values@.len() && cols_of(b) == 1 && utf8_column(b)
            == values@.map_values(|s: String| s@) && utf8_column_name(b) == column@
            && utf8_column_non_nullable(b),
{
    let field = arrow::datatypes::Field::new(column, arrow::datatypes::DataType::Utf8, false);
    let schema = Arc::new(arrow::datatypes::Schema::new(vec![field]));
    let array = arrow::array::StringArray::from(values.clone());
    match arrow::record_batch::RecordBatch::try_new(schema, vec![Arc::new(array)]) {
        Ok(inner) => Ok(Batch { inner }),
        Err(e) => Err(format!("{e}")),
    }
}

/// Relies on arrow's `StringArray::value`: reads back the values of a batch
/// whose single column is a non-nullable string column, in row order; any
/// other batch shape yields nothing.
#[verifier::external_body]
pub fn utf8_values(b: &Batch) -> (r: Option<Vec<String>>)
    ensures
        r matches Some(v) ==> v@.map_values(|s: String| s@) == utf8_column(*b),
{
    if b.inner.num_columns() != 1 {
        return None;
    }
    let column = b.inner.column(0);
    let strings = column.as_any().downcast_ref::<arrow::array::StringArray>()?;
    let n = arrow::array::Array::len(strings);
    Some((0..n).map(|i| strings.value(i).to_owned()).collect())
}

/// The eight fixed catalog names, in registration order.
pub open spec fn spec_table_names() -> Seq<Seq<char>> {
    seq![
        "tpch_nation"@,
        "tpch_customer"@,
        "tpch_orders"@,
        "tpch_lineitem"@,
        "tpch_part"@,
        "tpch_partsupp"@,
        "tpch_supplier"@,
        "tpch_region"@,
    ]
}

/// The eight fixed names are pairwise distinct, and each is short: at most a
/// hundred characters.
pub proof fn lemma_table_names_distinct()
    ensures
        forall|i: int, j: int|
            0 <= i < j < 8 ==> #[trigger] spec_table_names()[i] != #[trigger] spec_table_names()[j],
        forall|i: int| 0 <= i < 8 ==> #[trigger] spec_table_names()[i].len() <= 100,
{
    reveal_strlit("tpch_nation");
    reveal_strlit("tpch_customer");
    reveal_strlit("tpch_orders");
    reveal_strlit("tpch_lineitem");
    reveal_strlit("tpch_part");
    reveal_strlit("tpch_partsupp");
    reveal_strlit("tpch_supplier");
    reveal_strlit("tpch_region");
    assert forall|i: int, j: int| 0 <= i < j < 8 implies #[trigger] spec_table_names()[i]
        != #[trigger] spec_table_names()[j] by {
        let a = spec_table_names()[i];
        let b = spec_table_names()[j];
        if a.len() == b.len() {
            assert(a[5] != b[5]);
        }
    }
    assert forall|i: int| 0 <= i < 8 implies #[trigger] spec_table_names()[i].len() <= 100 by {
        assert(spec_table_names()[i].len() <= 13);
    }
}

/// The eight fixed catalog names, in registration order.
pub fn tpch_table_names() -> (r: Vec<String>)
    ensures
        r@.len() == 8,
        r@.map_values(|s: String| s@) == spec_table_names(),
{
    let mut v: Vec<String> = Vec::new();
    v.push("tpch_nation".to_owned());
    v.push("tpch_customer".to_owned());
    v.push("tpch_orders".to_owned());
    v.push("tpch_lineitem".to_owned());
    v.push("tpch_part".to_owned());
    v.push("tpch_partsupp".to_owned());
    v.push("tpch_supplier".to_owned());
    v.push("tpch_region".to_owned());
    proof {
        assert(v@.map_values(|s: String| s@) =~= spec_table_names());
    }
    v
}

/// One row generator per relation, all for the same scale factor and for
/// whole-table generation. Constructed by the caller, since the generator
/// constructors take the scale factor as a float.
pub struct TpchGenerators {
    /// The nation row generator.
    pub nation: NationGenerator<'static>,
    /// The customer row generator.
    pub customer: CustomerGenerator<'static>,
    /// The orders row generator.
    pub orders: OrderGenerator<'static>,
    /// The lineitem row generator.
    pub lineitem: LineItemGenerator<'static>,
    /// The part row generator.
    pub part: PartGenerator<'static>,
    /// The partsupp row generator.
    pub partsupp: PartSuppGenerator<'static>,
    /// The supplier row generator.
    pub supplier: SupplierGenerator<'static>,
    /// The region row generator.
    pub region: RegionGenerator<'static>,
}

impl TpchGenerators {
    /// Every scaled generator was built with a nonzero partition count, so
    /// each can be taken into its batch adapter (whose row split divides by
    /// that count). The nation and region generators ignore partitioning.
    pub open spec fn partitioned(&self) -> bool {
        &&& customer_parts_nonzero(self.customer)
        &&& order_parts_nonzero(self.orders)
        &&& lineitem_parts_nonzero(self.lineitem)
        &&& part_parts_nonzero(self.part)
        &&& partsupp_parts_nonzero(self.partsupp)
        &&& supplier_parts_nonzero(self.supplier)
    }
}

/// The column count of the relation registered at position `i` of the fixed
/// registration order.
pub open spec fn spec_relation_width(i: int) -> nat {
    if i == 0 {
        4
    } else if i == 1 {
        8
    } else if i == 2 {
        9
    } else if i == 3 {
        16
    } else if i == 4 {
        9
    } else if i == 5 {
        5
    } else if i == 6 {
        7
    } else {
        3
    }
}

/// The row count of the relation registered at position `i` of the fixed
/// registration order: the total output of the generator handed over for it.
pub open spec fn spec_relation_rows(gens: TpchGenerators, i: int) -> nat {
    if i == 0 {
        nation_total_rows(gens.nation)
    } else if i == 1 {
        customer_total_rows(gens.customer)
    } else if i == 2 {
        order_total_rows(gens.orders)
    } else if i == 3 {
        lineitem_total_rows(gens.lineitem)
    } else if i == 4 {
        part_total_rows(gens.part)
    } else if i == 5 {
        partsupp_total_rows(gens.partsupp)
    } else if i == 6 {
        supplier_total_rows(gens.supplier)
    } else {
        region_total_rows(gens.region)
    }
}

/// What the orchestrator registers at position `i`: the fixed name, bound to
/// a well-formed provider holding that relation's full generated table.
pub open spec fn registered_entry_ok(
    e: (String, TpchTableProvider),
    gens: TpchGenerators,
    i: int,
) -> bool {
    &&& e.0@ == spec_table_names()[i]
    &&& e.1.wf()
    &&& e.1.table.cols as nat == spec_relation_width(i)
    &&& e.1.table.rows as nat == spec_relation_rows(gens, i)
}

/// A registration conflict during the run means the conflicting fixed name
/// was already taken before the run began: the names appended so far are
/// distinct from the one being registered.
proof fn lemma_conflict_was_preexisting(pre: Catalog, cur: Catalog, i: int)
    requires
        0 <= i < 8,
        cur.names() == pre.names() + spec_table_names().take(i),
        cur.has_name(spec_table_names()[i]),
    ensures
        pre.has_name(spec_table_names()[i]),
{
    lemma_table_names_distinct();
    cur.lemma_has_name_is_membership(spec_table_names()[i]);
    let k = choose|k: int|
        0 <= k < cur.names().len() && cur.names()[k] == spec_table_names()[i];
    if k < pre.names().len() {
        assert(pre.names()[k] == spec_table_names()[i]);
        assert(pre.names().contains(spec_table_names()[i]));
        pre.lemma_has_name_is_membership(spec_table_names()[i]);
    } else {
        assert(spec_table_names().take(i)[k - pre.names().len()] == spec_table_names()[i]);
        assert(spec_table_names()[k - pre.names().len()] == spec_table_names()[i]);
        assert(false);
    }
}

/// Registers a provider under a name and accounts for the catalog's entry
/// list growing by exactly that entry.
fn register_step(cat: &mut Catalog, name: String, p: TpchTableProvider) -> (r: Result<
    (),
    TpchError,
>)
    requires
        old(cat).wf(),
    ensures
        final(cat).wf(),
        r is Ok <==> !old(cat).has_name(name@),
        r is Ok ==> final(cat).entries@ == old(cat).entries@.push((name, p)) && final(cat).names()
            == old(cat).names().push(name@),
        r is Err ==> final(cat).entries@ == old(cat).entries@ && final(cat).names() == old(
            cat,
        ).names(),
{
    match cat.register(name, p) {
        Ok(()) => {
            proof {
                assert(cat.names() =~= old(cat).names().push(name@));
            }
            Ok(())
        },
        Err(e) => {
            proof {
                assert(cat.names() =~= old(cat).names());
            }
            Err(e)
        },
    }
}

/// The multi-table TPC-H function: one invocation assembles all eight
/// relations into the held catalog.
pub struct TpchTables {
    /// The session catalog the orchestrator registers into.
    pub catalog: Catalog,
}

impl TpchTables {
    /// Wraps the injected session catalog.
    pub fn new(catalog: Catalog) -> (r: Self)
        ensures
            r.catalog == catalog,
    {
        TpchTables { catalog }
    }

    /// The in-memory path: materializes all eight relations, appends each to
    /// the catalog under its fixed name in registration order — bound to a
    /// well-formed provider holding that relation's full generated table —
    /// and returns the meta-table: one non-nullable string column named
    /// `table_name` listing the eight names, one row per table, in the same
    /// order. When none of the eight names is taken beforehand, success is
    /// owed.
    ///
    /// On the first failure the run aborts and surfaces that failure; the
    /// names registered so far — a prefix of the fixed name list — remain
    /// registered, and nothing else in the catalog changes.
    pub fn run_in_memory(&mut self, gens: TpchGenerators) -> (r: Result<
        TpchTableProvider,
        TpchError,
    >)
        requires
            old(self).catalog.wf(),
            gens.partitioned(),
        ensures
            final(self).catalog.wf(),
            (forall|i: int|
                0 <= i < 8 ==> !old(self).catalog.has_name(#[trigger] spec_table_names()[i]))
                ==> r is Ok,
            r matches Ok(p) ==> {
                &&& p.wf()
                &&& p.table.rows == 8
                &&& p.table.cols == 1
                &&& utf8_column(p.table.batch) == spec_table_names()
                &&& utf8_column_name(p.table.batch) == "table_name"@
                &&& utf8_column_non_nullable(p.table.batch)
                &&& final(self).catalog.entries@.len() == old(self).catalog.entries@.len() + 8
                &&& forall|i: int|
                    0 <= i < old(self).catalog.entries@.len() ==> final(self).catalog.entries@[i]
                        == old(self).catalog.entries@[i]
                &&& forall|i: int|
                    0 <= i < 8 ==> registered_entry_ok(
                        #[trigger] final(self).catalog.entries@[old(self).catalog.entries@.len()
                            + i],
                        gens,
                        i,
                    )
                &&& final(self).catalog.names() == old(self).catalog.names() + spec_table_names()
            },
            r is Err ==> exists|k: int|
                {
                    &&& 0 <= k < 8
                    &&& final(self).catalog.entries@.len() == old(self).catalog.entries@.len() + k
                    &&& (forall|i: int|
                        0 <= i < old(self).catalog.entries@.len()
                            ==> final(self).catalog.entries@[i] == old(self).catalog.entries@[i])
                    &&& (forall|i: int|
                        0 <= i < k ==> #[trigger] registered_entry_ok(
                            final(self).catalog.entries@[old(self).catalog.entries@.len() + i],
                            gens,
                            i,
                        ))
                    &&& final(self).catalog.names() == old(self).catalog.names()
                        + #[trigger] spec_table_names().take(k)
                    &&& old(self).catalog.has_name(spec_table_names()[k])
                },
    {
        let ghost base = self.catalog.names();
        let ghost base_len = self.catalog.entries@.len() as int;
        let p = match nation_table(gens.nation) {
            Ok(p) => p,
            Err(e) => { return Err(e) },
        };
        match register_step(&mut self.catalog, "tpch_nation".to_owned(), p) {
            Ok(()) => (),
            Err(e) => {
                proof {
                    assert(self.catalog.names() =~= base + spec_table_names().take(0));
                    lemma_conflict_was_preexisting(old(self).catalog, self.catalog, 0);
                }
                return Err(e);
            },
        }
        proof {
            assert(self.catalog.names() =~= base + spec_table_names().take(1));
            assert(self.catalog.entries@.len() == base_len + 1);
            assert(forall|i: int|
                0 <= i < base_len ==> self.catalog.entries@[i] == old(self).catalog.entries@[i]);
            assert(forall|i: int|
                0 <= i < 1 ==> registered_entry_ok(
                    #[trigger] self.catalog.entries@[base_len + i],
                    gens,
                    i,
                ));
        }
        let p = match customer_table(gens.customer) {
            Ok(p) => p,
            Err(e) => { return Err(e) },
        };
        match register_step(&mut self.catalog, "tpch_customer".to_owned(), p) {
            Ok(()) => (),
            Err(e) => {
                proof {
                    assert(self.catalog.names() =~= base + spec_table_names().take(1));
                    lemma_conflict_was_preexisting(old(self).catalog, self.catalog, 1);
                }
                return Err(e);
            },
        }
        proof {
            assert(self.catalog.names() =~= base + spec_table_names().take(2));
            assert(self.catalog.entries@.len() == base_len + 2);
            assert(forall|i: int|
                0 <= i < base_len ==> self.catalog.entries@[i] == old(self).catalog.entries@[i]);
            assert(forall|i: int|
                0 <= i < 2 ==> registered_entry_ok(
                    #[trigger] self.catalog.entries@[base_len + i],
                    gens,
                    i,
                ));
        }
        let p = match orders_table(gens.orders) {
            Ok(p) => p,
            Err(e) => { return Err(e) },
        };
        match register_step(&mut self.catalog, "tpch_orders".to_owned(), p) {
            Ok(()) => (),
            Err(e) => {
                proof {
                    assert(self.catalog.names() =~= base + spec_table_names().take(2));
                    lemma_conflict_was_preexisting(old(self).catalog, self.catalog, 2);
                }
                return Err(e);
            },
        }
        proof {
            assert(self.catalog.names() =~= base + spec_table_names().take(3));
            assert(self.catalog.entries@.len() == base_len + 3);
            assert(forall|i: int|
                0 <= i < base_len ==> self.catalog.entries@[i] == old(self).catalog.entries@[i]);
            assert(forall|i: int|
                0 <= i < 3 ==> registered_entry_ok(
                    #[trigger] self.catalog.entries@[base_len + i],
                    gens,
                    i,
                ));
        }
        let p = match lineitem_table(gens.lineitem) {
            Ok(p) => p,
            Err(e) => { return Err(e) },
        };
        match register_step(&mut self.catalog, "tpch_lineitem".to_owned(), p) {
            Ok(()) => (),
            Err(e) => {
                proof {
                    assert(self.catalog.names() =~= base + spec_table_names().take(3));
                    lemma_conflict_was_preexisting(old(self).catalog, self.catalog, 3);
                }
                return Err(e);
            },
        }
        proof {
            assert(self.catalog.names() =~= base + spec_table_names().take(4));
            assert(self.catalog.entries@.len() == base_len + 4);
            assert(forall|i: int|
                0 <= i < base_len ==> self.catalog.entries@[i] == old(self).catalog.entries@[i]);
            assert(forall|i: int|
                0 <= i < 4 ==> registered_entry_ok(
                    #[trigger] self.catalog.entries@[base_len + i],
                    gens,
                    i,
                ));
        }
        let p = match part_table(gens.part) {
            Ok(p) => p,
            Err(e) => { return Err(e) },
        };
        match register_step(&mut self.catalog, "tpch_part".to_owned(), p) {
            Ok(()) => (),
            Err(e) => {
                proof {
                    assert(self.catalog.names() =~= base + spec_table_names().take(4));
                    lemma_conflict_was_preexisting(old(self).catalog, self.catalog, 4);
                }
                return Err(e);
            },
        }
        proof {
            assert(self.catalog.names() =~= base + spec_table_names().take(5));
            assert(self.catalog.entries@.len() == base_len + 5);
            assert(forall|i: int|
                0 <= i < base_len ==> self.catalog.entries@[i] == old(self).catalog.entries@[i]);
            assert(forall|i: int|
                0 <= i < 5 ==> registered_entry_ok(
                    #[trigger] self.catalog.entries@[base_len + i],
                    gens,
                    i,
                ));
        }
        let p = match partsupp_table(gens.partsupp) {
            Ok(p) => p,
            Err(e) => { return Err(e) },
        };
        match register_step(&mut self.catalog, "tpch_partsupp".to_owned(), p) {
            Ok(()) => (),
            Err(e) => {
                proof {
                    assert(self.catalog.names() =~= base + spec_table_names().take(5));
                    lemma_conflict_was_preexisting(old(self).catalog, self.catalog, 5);
                }
                return Err(e);
            },
        }
        proof {
            assert(self.catalog.names() =~= base + spec_table_names().take(6));
            assert(self.catalog.entries@.len() == base_len + 6);
            assert(forall|i: int|
                0 <= i < base_len ==> self.catalog.entries@[i] == old(self).catalog.entries@[i]);
            assert(forall|i: int|
                0 <= i < 6 ==> registered_entry_ok(
                    #[trigger] self.catalog.entries@[base_len + i],
                    gens,
                    i,
                ));
        }
        let p = match supplier_table(gens.supplier) {
            Ok(p) => p,
            Err(e) => { return Err(e) },
        };
        match register_step(&mut self.catalog, "tpch_supplier".to_owned(), p) {
            Ok(()) => (),
            Err(e) => {
                proof {
                    assert(self.catalog.names() =~= base + spec_table_names().take(6));
                    lemma_conflict_was_preexisting(old(self).catalog, self.catalog, 6);
                }
                return Err(e);
            },
        }
        proof {
            assert(self.catalog.names() =~= base + spec_table_names().take(7));
            assert(self.catalog.entries@.len() == base_len + 7);
            assert(forall|i: int|
                0 <= i < base_len ==> self.catalog.entries@[i] == old(self).catalog.entries@[i]);
            assert(forall|i: int|
                0 <= i < 7 ==> registered_entry_ok(
                    #[trigger] self.catalog.entries@[base_len + i],
                    gens,
                    i,
                ));
        }
        let p = match region_table(gens.region) {
            Ok(p) => p,
            Err(e) => { return Err(e) },
        };
        match register_step(&mut self.catalog, "tpch_region".to_owned(), p) {
            Ok(()) => (),
            Err(e) => {
                proof {
                    assert(self.catalog.names() =~= base + spec_table_names().take(7));
                    lemma_conflict_was_preexisting(old(self).catalog, self.catalog, 7);
                }
                return Err(e);
            },
        }
        proof {
            assert(self.catalog.names() =~= base + spec_table_names().take(8));
            assert(self.catalog.entries@.len() == base_len + 8);
            assert(forall|i: int|
                0 <= i < base_len ==> self.catalog.entries@[i] == old(self).catalog.entries@[i]);
            assert(forall|i: int|
                0 <= i < 8 ==> registered_entry_ok(
                    #[trigger] self.catalog.entries@[base_len + i],
                    gens,
                    i,
                ));
        }
        proof {
            assert(self.catalog.names() =~= base + spec_table_names().take(8));
            assert(spec_table_names().take(8) =~= spec_table_names());
        }
        let names = tpch_table_names();
        proof {
            lemma_table_names_distinct();
            assert forall|i: int| 0 <= i < names@.len() implies #[trigger] names@[i]@.len()
                <= 100 by {
                assert(names@.map_values(|s: String| s@)[i] == names@[i]@);
            }
        }
        let batch = match utf8_list_batch("table_name", &names) {
            Ok(b) => b,
            Err(m) => { return Err(TpchError::Internal(m)) },
        };
        let schema = batch_schema(&batch);
        let rows = batch_num_rows(&batch);
        let cols = batch_num_columns(&batch);
        let table = MaterializedTable { schema, batch, rows, cols };
        Ok(TpchTableProvider::new(table))
    }
}

} // verus!
