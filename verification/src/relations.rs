//! The eight TPC-H relations as single-table functions.
//!
//! Every relation follows one control flow: a partitioned row generator
//! (constructed by the caller from the validated configuration, since its
//! constructor takes the scale factor as a float) is wrapped in the relation's
//! batch adapter, the adapter is drained to exhaustion, and the concatenated
//! result is wrapped in a scan-only provider. The generator and adapter types
//! of `tpchgen` / `tpchgen_arrow` are opaque; each adapter is trusted to
//! produce non-empty batches over its fixed relation schema, a static value
//! whose column types (integers, dates, decimals, string views) concatenate
//! without error, and to account for every row its generator produces.

use vstd::prelude::*;

use crate::args::TpchError;
use crate::batch::{cols_of, concat_ready, conforms, rows_of, schema_width};
use crate::batch::{materialize_source, Batch, BatchSource, TableSchema};
use crate::provider::TpchTableProvider;
use tpchgen::generators::{
    CustomerGenerator, LineItemGenerator, NationGenerator, OrderGenerator, PartGenerator,
    PartSuppGenerator, RegionGenerator, SupplierGenerator,
};
use tpchgen_arrow::{
    CustomerArrow, LineItemArrow, NationArrow, OrderArrow, PartArrow, PartSuppArrow, RegionArrow,
    SupplierArrow,
};

verus! {

#[verifier::external_type_specification]
#[verifier::external_body]
pub struct ExNationGenerator<'a>(NationGenerator<'a>);

#[verifier::external_type_specification]
#[verifier::external_body]
pub struct ExRegionGenerator<'a>(RegionGenerator<'a>);

#[verifier::external_type_specification]
#[verifier::external_body]
pub struct ExCustomerGenerator<'a>(CustomerGenerator<'a>);

#[verifier::external_type_specification]
#[verifier::external_body]
pub struct ExSupplierGenerator<'a>(SupplierGenerator<'a>);

#[verifier::external_type_specification]
#[verifier::external_body]
pub struct ExPartGenerator<'a>(PartGenerator<'a>);

#[verifier::external_type_specification]
#[verifier::external_body]
pub struct ExPartSuppGenerator<'a>(PartSuppGenerator<'a>);

#[verifier::external_type_specification]
#[verifier::external_body]
pub struct ExOrderGenerator<'a>(OrderGenerator<'a>);

#[verifier::external_type_specification]
#[verifier::external_body]
pub struct ExLineItemGenerator<'a>(LineItemGenerator<'a>);

#[verifier::external_type_specification]
#[verifier::external_body]
pub struct ExNationArrow(NationArrow);

#[verifier::external_type_specification]
#[verifier::external_body]
pub struct ExRegionArrow(RegionArrow);

#[verifier::external_type_specification]
#[verifier::external_body]
pub struct ExCustomerArrow(CustomerArrow);

#[verifier::external_type_specification]
#[verifier::external_body]
pub struct ExSupplierArrow(SupplierArrow);

#[verifier::external_type_specification]
#[verifier::external_body]
pub struct ExPartArrow(PartArrow);

#[verifier::external_type_specification]
#[verifier::external_body]
pub struct ExPartSuppArrow(PartSuppArrow);

#[verifier::external_type_specification]
#[verifier::external_body]
pub struct ExOrderArrow(OrderArrow);

#[verifier::external_type_specification]
#[verifier::external_body]
pub struct ExLineItemArrow(LineItemArrow);

/// Whether a schema handle wraps the static four-field nation schema.
pub uninterp spec fn is_nation_schema(s: TableSchema) -> bool;

/// How many rows the adapter's inner row iterator will still produce.
pub uninterp spec fn nation_rows_left(src: NationArrow) -> nat;

/// The total number of rows the generator produces over its whole run: a
/// deterministic function of the generator value (its scale factor and
/// partition bounds).
pub uninterp spec fn nation_total_rows(gen: NationGenerator<'static>) -> nat;

impl BatchSource for NationArrow {
    open spec fn width(&self) -> nat {
        4
    }

    open spec fn good_schema(&self, s: TableSchema) -> bool {
        is_nation_schema(s)
    }

    open spec fn rows_left(&self) -> nat {
        nation_rows_left(*self)
    }

    fn next_batch(&mut self) -> (r: Option<Batch>) {
        nation_next(self)
    }

    fn schema(&self) -> (r: TableSchema) {
        nation_schema(self)
    }
}

/// Relies on tpchgen_arrow's `NationArrow::next`: it takes the next rows of a finite
/// row iterator and returns nothing exactly when none are left; a produced
/// batch holds exactly the rows consumed and is built under the static
/// four-field nation schema, so it conforms to every handle to it.
#[verifier::external_body]
fn nation_next(src: &mut NationArrow) -> (r: Option<Batch>)
    ensures
        r matches Some(b) ==> cols_of(b) == 4 && (forall|s: TableSchema|
            is_nation_schema(s) ==> conforms(b, s)) && rows_of(b) + nation_rows_left(*final(src))
            == nation_rows_left(*old(src)) && nation_rows_left(*final(src)) < nation_rows_left(
            *old(src),
        ),
        r is None ==> nation_rows_left(*final(src)) == nation_rows_left(*old(src))
            && nation_rows_left(*old(src)) == 0,
{
    src.next().map(|inner| Batch { inner })
}

/// Relies on tpchgen_arrow's `RecordBatchIterator::schema` for `NationArrow`: the
/// static four-field nation schema, whose column types are all primitive or
/// view types, which arrow concatenates without error.
#[verifier::external_body]
fn nation_schema(src: &NationArrow) -> (r: TableSchema)
    ensures
        schema_width(r) == 4,
        is_nation_schema(r),
        concat_ready(r),
{
    TableSchema { inner: tpchgen_arrow::RecordBatchIterator::schema(src).clone() }
}

/// Relies on tpchgen_arrow's `NationArrow::new`: adapts a nation row generator into
/// batches; the rows still to come are exactly the generator's full output.
#[verifier::external_body]
fn nation_adapter(gen: NationGenerator<'static>) -> (r: NationArrow)
    ensures
        nation_rows_left(r) == nation_total_rows(gen),
{
    NationArrow::new(gen)
}

/// Whether a schema handle wraps the static three-field region schema.
pub uninterp spec fn is_region_schema(s: TableSchema) -> bool;

/// How many rows the adapter's inner row iterator will still produce.
pub uninterp spec fn region_rows_left(src: RegionArrow) -> nat;

/// The total number of rows the generator produces over its whole run: a
/// deterministic function of the generator value (its scale factor and
/// partition bounds).
pub uninterp spec fn region_total_rows(gen: RegionGenerator<'static>) -> nat;

impl BatchSource for RegionArrow {
    open spec fn width(&self) -> nat {
        3
    }

    open spec fn good_schema(&self, s: TableSchema) -> bool {
        is_region_schema(s)
    }

    open spec fn rows_left(&self) -> nat {
        region_rows_left(*self)
    }

    fn next_batch(&mut self) -> (r: Option<Batch>) {
        region_next(self)
    }

    fn schema(&self) -> (r: TableSchema) {
        region_schema(self)
    }
}

/// Relies on tpchgen_arrow's `RegionArrow::next`: it takes the next rows of a finite
/// row iterator and returns nothing exactly when none are left; a produced
/// batch holds exactly the rows consumed and is built under the static
/// three-field region schema, so it conforms to every handle to it.
#[verifier::external_body]
fn region_next(src: &mut RegionArrow) -> (r: Option<Batch>)
    ensures
        r matches Some(b) ==> cols_of(b) == 3 && (forall|s: TableSchema|
            is_region_schema(s) ==> conforms(b, s)) && rows_of(b) + region_rows_left(*final(src))
            == region_rows_left(*old(src)) && region_rows_left(*final(src)) < region_rows_left(
            *old(src),
        ),
        r is None ==> region_rows_left(*final(src)) == region_rows_left(*old(src))
            && region_rows_left(*old(src)) == 0,
{
    src.next().map(|inner| Batch { inner })
}

/// Relies on tpchgen_arrow's `RecordBatchIterator::schema` for `RegionArrow`: the
/// static three-field region schema, whose column types are all primitive or
/// view types, which arrow concatenates without error.
#[verifier::external_body]
fn region_schema(src: &RegionArrow) -> (r: TableSchema)
    ensures
        schema_width(r) == 3,
        is_region_schema(r),
        concat_ready(r),
{
    TableSchema { inner: tpchgen_arrow::RecordBatchIterator::schema(src).clone() }
}

/// Relies on tpchgen_arrow's `RegionArrow::new`: adapts a region row generator into
/// batches; the rows still to come are exactly the generator's full output.
#[verifier::external_body]
fn region_adapter(gen: RegionGenerator<'static>) -> (r: RegionArrow)
    ensures
        region_rows_left(r) == region_total_rows(gen),
{
    RegionArrow::new(gen)
}

/// Whether a schema handle wraps the static eight-field customer schema.
pub uninterp spec fn is_customer_schema(s: TableSchema) -> bool;

/// How many rows the adapter's inner row iterator will still produce.
pub uninterp spec fn customer_rows_left(src: CustomerArrow) -> nat;

/// The total number of rows the generator produces over its whole run: a
/// deterministic function of the generator value (its scale factor and
/// partition bounds).
pub uninterp spec fn customer_total_rows(gen: CustomerGenerator<'static>) -> nat;

/// Whether the generator was built with a nonzero partition count. The
/// generator's row split divides the total row count by it, so a zero
/// partition count cannot be taken into an adapter.
pub uninterp spec fn customer_parts_nonzero(gen: CustomerGenerator<'static>) -> bool;

impl BatchSource for CustomerArrow {
    open spec fn width(&self) -> nat {
        8
    }

    open spec fn good_schema(&self, s: TableSchema) -> bool {
        is_customer_schema(s)
    }

    open spec fn rows_left(&self) -> nat {
        customer_rows_left(*self)
    }

    fn next_batch(&mut self) -> (r: Option<Batch>) {
        customer_next(self)
    }

    fn schema(&self) -> (r: TableSchema) {
        customer_schema(self)
    }
}

/// Relies on tpchgen_arrow's `CustomerArrow::next`: it takes the next rows of a finite
/// row iterator and returns nothing exactly when none are left; a produced
/// batch holds exactly the rows consumed and is built under the static
/// eight-field customer schema, so it conforms to every handle to it.
#[verifier::external_body]
fn customer_next(src: &mut CustomerArrow) -> (r: Option<Batch>)
    ensures
        r matches Some(b) ==> cols_of(b) == 8 && (forall|s: TableSchema|
            is_customer_schema(s) ==> conforms(b, s)) && rows_of(b) + customer_rows_left(*final(src))
            == customer_rows_left(*old(src)) && customer_rows_left(*final(src)) < customer_rows_left(
            *old(src),
        ),
        r is None ==> customer_rows_left(*final(src)) == customer_rows_left(*old(src))
            && customer_rows_left(*old(src)) == 0,
{
    src.next().map(|inner| Batch { inner })
}

/// Relies on tpchgen_arrow's `RecordBatchIterator::schema` for `CustomerArrow`: the
/// static eight-field customer schema, whose column types are all primitive or
/// view types, which arrow concatenates without error.
#[verifier::external_body]
fn customer_schema(src: &CustomerArrow) -> (r: TableSchema)
    ensures
        schema_width(r) == 8,
        is_customer_schema(r),
        concat_ready(r),
{
    TableSchema { inner: tpchgen_arrow::RecordBatchIterator::schema(src).clone() }
}

/// Relies on tpchgen_arrow's `CustomerArrow::new`: it splits the generator's rows by
/// its partition count, dividing by it, so the generator must have been
/// built with a nonzero count; the rows still to come are then exactly the
/// generator's full output.
#[verifier::external_body]
fn customer_adapter(gen: CustomerGenerator<'static>) -> (r: CustomerArrow)
    requires
        customer_parts_nonzero(gen),
    ensures
        customer_parts_nonzero(gen) ==> customer_rows_left(r) == customer_total_rows(gen),
{
    CustomerArrow::new(gen)
}

/// Whether a schema handle wraps the static seven-field supplier schema.
pub uninterp spec fn is_supplier_schema(s: TableSchema) -> bool;

/// How many rows the adapter's inner row iterator will still produce.
pub uninterp spec fn supplier_rows_left(src: SupplierArrow) -> nat;

/// The total number of rows the generator produces over its whole run: a
/// deterministic function of the generator value (its scale factor and
/// partition bounds).
pub uninterp spec fn supplier_total_rows(gen: SupplierGenerator<'static>) -> nat;

/// Whether the generator was built with a nonzero partition count. The
/// generator's row split divides the total row count by it, so a zero
/// partition count cannot be taken into an adapter.
pub uninterp spec fn supplier_parts_nonzero(gen: SupplierGenerator<'static>) -> bool;

impl BatchSource for SupplierArrow {
    open spec fn width(&self) -> nat {
        7
    }

    open spec fn good_schema(&self, s: TableSchema) -> bool {
        is_supplier_schema(s)
    }

    open spec fn rows_left(&self) -> nat {
        supplier_rows_left(*self)
    }

    fn next_batch(&mut self) -> (r: Option<Batch>) {
        supplier_next(self)
    }

    fn schema(&self) -> (r: TableSchema) {
        supplier_schema(self)
    }
}

/// Relies on tpchgen_arrow's `SupplierArrow::next`: it takes the next rows of a finite
/// row iterator and returns nothing exactly when none are left; a produced
/// batch holds exactly the rows consumed and is built under the static
/// seven-field supplier schema, so it conforms to every handle to it.
#[verifier::external_body]
fn supplier_next(src: &mut SupplierArrow) -> (r: Option<Batch>)
    ensures
        r matches Some(b) ==> cols_of(b) == 7 && (forall|s: TableSchema|
            is_supplier_schema(s) ==> conforms(b, s)) && rows_of(b) + supplier_rows_left(*final(src))
            == supplier_rows_left(*old(src)) && supplier_rows_left(*final(src)) < supplier_rows_left(
            *old(src),
        ),
        r is None ==> supplier_rows_left(*final(src)) == supplier_rows_left(*old(src))
            && supplier_rows_left(*old(src)) == 0,
{
    src.next().map(|inner| Batch { inner })
}

/// Relies on tpchgen_arrow's `RecordBatchIterator::schema` for `SupplierArrow`: the
/// static seven-field supplier schema, whose column types are all primitive or
/// view types, which arrow concatenates without error.
#[verifier::external_body]
fn supplier_schema(src: &SupplierArrow) -> (r: TableSchema)
    ensures
        schema_width(r) == 7,
        is_supplier_schema(r),
        concat_ready(r),
{
    TableSchema { inner: tpchgen_arrow::RecordBatchIterator::schema(src).clone() }
}

/// Relies on tpchgen_arrow's `SupplierArrow::new`: it splits the generator's rows by
/// its partition count, dividing by it, so the generator must have been
/// built with a nonzero count; the rows still to come are then exactly the
/// generator's full output.
#[verifier::external_body]
fn supplier_adapter(gen: SupplierGenerator<'static>) -> (r: SupplierArrow)
    requires
        supplier_parts_nonzero(gen),
    ensures
        supplier_parts_nonzero(gen) ==> supplier_rows_left(r) == supplier_total_rows(gen),
{
    SupplierArrow::new(gen)
}

/// Whether a schema handle wraps the static nine-field part schema.
pub uninterp spec fn is_part_schema(s: TableSchema) -> bool;

/// How many rows the adapter's inner row iterator will still produce.
pub uninterp spec fn part_rows_left(src: PartArrow) -> nat;

/// The total number of rows the generator produces over its whole run: a
/// deterministic function of the generator value (its scale factor and
/// partition bounds).
pub uninterp spec fn part_total_rows(gen: PartGenerator<'static>) -> nat;

/// Whether the generator was built with a nonzero partition count. The
/// generator's row split divides the total row count by it, so a zero
/// partition count cannot be taken into an adapter.
pub uninterp spec fn part_parts_nonzero(gen: PartGenerator<'static>) -> bool;

impl BatchSource for PartArrow {
    open spec fn width(&self) -> nat {
        9
    }

    open spec fn good_schema(&self, s: TableSchema) -> bool {
        is_part_schema(s)
    }

    open spec fn rows_left(&self) -> nat {
        part_rows_left(*self)
    }

    fn next_batch(&mut self) -> (r: Option<Batch>) {
        part_next(self)
    }

    fn schema(&self) -> (r: TableSchema) {
        part_schema(self)
    }
}

/// Relies on tpchgen_arrow's `PartArrow::next`: it takes the next rows of a finite
/// row iterator and returns nothing exactly when none are left; a produced
/// batch holds exactly the rows consumed and is built under the static
/// nine-field part schema, so it conforms to every handle to it.
#[verifier::external_body]
fn part_next(src: &mut PartArrow) -> (r: Option<Batch>)
    ensures
        r matches Some(b) ==> cols_of(b) == 9 && (forall|s: TableSchema|
            is_part_schema(s) ==> conforms(b, s)) && rows_of(b) + part_rows_left(*final(src))
            == part_rows_left(*old(src)) && part_rows_left(*final(src)) < part_rows_left(
            *old(src),
        ),
        r is None ==> part_rows_left(*final(src)) == part_rows_left(*old(src))
            && part_rows_left(*old(src)) == 0,
{
    src.next().map(|inner| Batch { inner })
}

/// Relies on tpchgen_arrow's `RecordBatchIterator::schema` for `PartArrow`: the
/// static nine-field part schema, whose column types are all primitive or
/// view types, which arrow concatenates without error.
#[verifier::external_body]
fn part_schema(src: &PartArrow) -> (r: TableSchema)
    ensures
        schema_width(r) == 9,
        is_part_schema(r),
        concat_ready(r),
{
    TableSchema { inner: tpchgen_arrow::RecordBatchIterator::schema(src).clone() }
}

/// Relies on tpchgen_arrow's `PartArrow::new`: it splits the generator's rows by
/// its partition count, dividing by it, so the generator must have been
/// built with a nonzero count; the rows still to come are then exactly the
/// generator's full output.
#[verifier::external_body]
fn part_adapter(gen: PartGenerator<'static>) -> (r: PartArrow)
    requires
        part_parts_nonzero(gen),
    ensures
        part_parts_nonzero(gen) ==> part_rows_left(r) == part_total_rows(gen),
{
    PartArrow::new(gen)
}

/// Whether a schema handle wraps the static five-field partsupp schema.
pub uninterp spec fn is_partsupp_schema(s: TableSchema) -> bool;

/// How many rows the adapter's inner row iterator will still produce.
pub uninterp spec fn partsupp_rows_left(src: PartSuppArrow) -> nat;

/// The total number of rows the generator produces over its whole run: a
/// deterministic function of the generator value (its scale factor and
/// partition bounds).
pub uninterp spec fn partsupp_total_rows(gen: PartSuppGenerator<'static>) -> nat;

/// Whether the generator was built with a nonzero partition count. The
/// generator's row split divides the total row count by it, so a zero
/// partition count cannot be taken into an adapter.
pub uninterp spec fn partsupp_parts_nonzero(gen: PartSuppGenerator<'static>) -> bool;

impl BatchSource for PartSuppArrow {
    open spec fn width(&self) -> nat {
        5
    }

    open spec fn good_schema(&self, s: TableSchema) -> bool {
        is_partsupp_schema(s)
    }

    open spec fn rows_left(&self) -> nat {
        partsupp_rows_left(*self)
    }

    fn next_batch(&mut self) -> (r: Option<Batch>) {
        partsupp_next(self)
    }

    fn schema(&self) -> (r: TableSchema) {
        partsupp_schema(self)
    }
}

/// Relies on tpchgen_arrow's `PartSuppArrow::next`: it takes the next rows of a finite
/// row iterator and returns nothing exactly when none are left; a produced
/// batch holds exactly the rows consumed and is built under the static
/// five-field partsupp schema, so it conforms to every handle to it.
#[verifier::external_body]
fn partsupp_next(src: &mut PartSuppArrow) -> (r: Option<Batch>)
    ensures
        r matches Some(b) ==> cols_of(b) == 5 && (forall|s: TableSchema|
            is_partsupp_schema(s) ==> conforms(b, s)) && rows_of(b) + partsupp_rows_left(*final(src))
            == partsupp_rows_left(*old(src)) && partsupp_rows_left(*final(src)) < partsupp_rows_left(
            *old(src),
        ),
        r is None ==> partsupp_rows_left(*final(src)) == partsupp_rows_left(*old(src))
            && partsupp_rows_left(*old(src)) == 0,
{
    src.next().map(|inner| Batch { inner })
}

/// Relies on tpchgen_arrow's `RecordBatchIterator::schema` for `PartSuppArrow`: the
/// static five-field partsupp schema, whose column types are all primitive or
/// view types, which arrow concatenates without error.
#[verifier::external_body]
fn partsupp_schema(src: &PartSuppArrow) -> (r: TableSchema)
    ensures
        schema_width(r) == 5,
        is_partsupp_schema(r),
        concat_ready(r),
{
    TableSchema { inner: tpchgen_arrow::RecordBatchIterator::schema(src).clone() }
}

/// Relies on tpchgen_arrow's `PartSuppArrow::new`: it splits the generator's rows by
/// its partition count, dividing by it, so the generator must have been
/// built with a nonzero count; the rows still to come are then exactly the
/// generator's full output.
#[verifier::external_body]
fn partsupp_adapter(gen: PartSuppGenerator<'static>) -> (r: PartSuppArrow)
    requires
        partsupp_parts_nonzero(gen),
    ensures
        partsupp_parts_nonzero(gen) ==> partsupp_rows_left(r) == partsupp_total_rows(gen),
{
    PartSuppArrow::new(gen)
}

/// Whether a schema handle wraps the static nine-field orders schema.
pub uninterp spec fn is_order_schema(s: TableSchema) -> bool;

/// How many rows the adapter's inner row iterator will still produce.
pub uninterp spec fn order_rows_left(src: OrderArrow) -> nat;

/// The total number of rows the generator produces over its whole run: a
/// deterministic function of the generator value (its scale factor and
/// partition bounds).
pub uninterp spec fn order_total_rows(gen: OrderGenerator<'static>) -> nat;

/// Whether the generator was built with a nonzero partition count. The
/// generator's row split divides the total row count by it, so a zero
/// partition count cannot be taken into an adapter.
pub uninterp spec fn order_parts_nonzero(gen: OrderGenerator<'static>) -> bool;

impl BatchSource for OrderArrow {
    open spec fn width(&self) -> nat {
        9
    }

    open spec fn good_schema(&self, s: TableSchema) -> bool {
        is_order_schema(s)
    }

    open spec fn rows_left(&self) -> nat {
        order_rows_left(*self)
    }

    fn next_batch(&mut self) -> (r: Option<Batch>) {
        order_next(self)
    }

    fn schema(&self) -> (r: TableSchema) {
        order_schema(self)
    }
}

/// Relies on tpchgen_arrow's `OrderArrow::next`: it takes the next rows of a finite
/// row iterator and returns nothing exactly when none are left; a produced
/// batch holds exactly the rows consumed and is built under the static
/// nine-field orders schema, so it conforms to every handle to it.
#[verifier::external_body]
fn order_next(src: &mut OrderArrow) -> (r: Option<Batch>)
    ensures
        r matches Some(b) ==> cols_of(b) == 9 && (forall|s: TableSchema|
            is_order_schema(s) ==> conforms(b, s)) && rows_of(b) + order_rows_left(*final(src))
            == order_rows_left(*old(src)) && order_rows_left(*final(src)) < order_rows_left(
            *old(src),
        ),
        r is None ==> order_rows_left(*final(src)) == order_rows_left(*old(src))
            && order_rows_left(*old(src)) == 0,
{
    src.next().map(|inner| Batch { inner })
}

/// Relies on tpchgen_arrow's `RecordBatchIterator::schema` for `OrderArrow`: the
/// static nine-field orders schema, whose column types are all primitive or
/// view types, which arrow concatenates without error.
#[verifier::external_body]
fn order_schema(src: &OrderArrow) -> (r: TableSchema)
    ensures
        schema_width(r) == 9,
        is_order_schema(r),
        concat_ready(r),
{
    TableSchema { inner: tpchgen_arrow::RecordBatchIterator::schema(src).clone() }
}

/// Relies on tpchgen_arrow's `OrderArrow::new`: it splits the generator's rows by
/// its partition count, dividing by it, so the generator must have been
/// built with a nonzero count; the rows still to come are then exactly the
/// generator's full output.
#[verifier::external_body]
fn order_adapter(gen: OrderGenerator<'static>) -> (r: OrderArrow)
    requires
        order_parts_nonzero(gen),
    ensures
        order_parts_nonzero(gen) ==> order_rows_left(r) == order_total_rows(gen),
{
    OrderArrow::new(gen)
}

/// Whether a schema handle wraps the static sixteen-field lineitem schema.
pub uninterp spec fn is_lineitem_schema(s: TableSchema) -> bool;

/// How many rows the adapter's inner row iterator will still produce.
pub uninterp spec fn lineitem_rows_left(src: LineItemArrow) -> nat;

/// The total number of rows the generator produces over its whole run: a
/// deterministic function of the generator value (its scale factor and
/// partition bounds).
pub uninterp spec fn lineitem_total_rows(gen: LineItemGenerator<'static>) -> nat;

/// Whether the generator was built with a nonzero partition count. The
/// generator's row split divides the total row count by it, so a zero
/// partition count cannot be taken into an adapter.
pub uninterp spec fn lineitem_parts_nonzero(gen: LineItemGenerator<'static>) -> bool;

impl BatchSource for LineItemArrow {
    open spec fn width(&self) -> nat {
        16
    }

    open spec fn good_schema(&self, s: TableSchema) -> bool {
        is_lineitem_schema(s)
    }

    open spec fn rows_left(&self) -> nat {
        lineitem_rows_left(*self)
    }

    fn next_batch(&mut self) -> (r: Option<Batch>) {
        lineitem_next(self)
    }

    fn schema(&self) -> (r: TableSchema) {
        lineitem_schema(self)
    }
}

/// Relies on tpchgen_arrow's `LineItemArrow::next`: it takes the next rows of a finite
/// row iterator and returns nothing exactly when none are left; a produced
/// batch holds exactly the rows consumed and is built under the static
/// sixteen-field lineitem schema, so it conforms to every handle to it.
#[verifier::external_body]
fn lineitem_next(src: &mut LineItemArrow) -> (r: Option<Batch>)
    ensures
        r matches Some(b) ==> cols_of(b) == 16 && (forall|s: TableSchema|
            is_lineitem_schema(s) ==> conforms(b, s)) && rows_of(b) + lineitem_rows_left(*final(src))
            == lineitem_rows_left(*old(src)) && lineitem_rows_left(*final(src)) < lineitem_rows_left(
            *old(src),
        ),
        r is None ==> lineitem_rows_left(*final(src)) == lineitem_rows_left(*old(src))
            && lineitem_rows_left(*old(src)) == 0,
{
    src.next().map(|inner| Batch { inner })
}

/// Relies on tpchgen_arrow's `RecordBatchIterator::schema` for `LineItemArrow`: the
/// static sixteen-field lineitem schema, whose column types are all primitive or
/// view types, which arrow concatenates without error.
#[verifier::external_body]
fn lineitem_schema(src: &LineItemArrow) -> (r: TableSchema)
    ensures
        schema_width(r) == 16,
        is_lineitem_schema(r),
        concat_ready(r),
{
    TableSchema { inner: tpchgen_arrow::RecordBatchIterator::schema(src).clone() }
}

/// Relies on tpchgen_arrow's `LineItemArrow::new`: it splits the generator's rows by
/// its partition count, dividing by it, so the generator must have been
/// built with a nonzero count; the rows still to come are then exactly the
/// generator's full output.
#[verifier::external_body]
fn lineitem_adapter(gen: LineItemGenerator<'static>) -> (r: LineItemArrow)
    requires
        lineitem_parts_nonzero(gen),
    ensures
        lineitem_parts_nonzero(gen) ==> lineitem_rows_left(r) == lineitem_total_rows(gen),
{
    LineItemArrow::new(gen)
}

/// Drains a batch source and wraps the materialized result in a scan-only
/// provider.
fn provider_from_source<S: BatchSource>(src: &mut S) -> (r: Result<TpchTableProvider, TpchError>)
    ensures
        r is Ok,
        r matches Ok(p) ==> p.wf() && p.table.cols as nat == old(src).width() && p.table.rows
            as nat == old(src).rows_left() && old(src).good_schema(p.table.schema),
{
    match materialize_source(src) {
        Ok(table) => Ok(TpchTableProvider::new(table)),
        Err(e) => Err(e),
    }
}

/// Materializes the nation table from a nation row generator: four columns
/// and every row the generator produces, in production order. Success is
/// owed.
pub fn nation_table(gen: NationGenerator<'static>) -> (r: Result<TpchTableProvider, TpchError>)
    ensures
        r is Ok,
        r matches Ok(p) ==> p.wf() && p.table.cols == 4 && p.table.rows as nat
            == nation_total_rows(gen) && is_nation_schema(p.table.schema),
{
    let mut src = nation_adapter(gen);
    provider_from_source(&mut src)
}

/// Materializes the region table from a region row generator: three columns
/// and every row the generator produces, in production order. Success is
/// owed.
pub fn region_table(gen: RegionGenerator<'static>) -> (r: Result<TpchTableProvider, TpchError>)
    ensures
        r is Ok,
        r matches Ok(p) ==> p.wf() && p.table.cols == 3 && p.table.rows as nat
            == region_total_rows(gen) && is_region_schema(p.table.schema),
{
    let mut src = region_adapter(gen);
    provider_from_source(&mut src)
}

/// Materializes the customer table from a customer row generator: eight columns
/// and every row the generator produces, in production order. Success is
/// owed. The generator must have been built with a nonzero partition
/// count: the adapter's row split divides by it.
pub fn customer_table(gen: CustomerGenerator<'static>) -> (r: Result<TpchTableProvider, TpchError>)
    requires
        customer_parts_nonzero(gen),
    ensures
        r is Ok,
        r matches Ok(p) ==> p.wf() && p.table.cols == 8 && p.table.rows as nat
            == customer_total_rows(gen) && is_customer_schema(p.table.schema),
{
    let mut src = customer_adapter(gen);
    provider_from_source(&mut src)
}

/// Materializes the supplier table from a supplier row generator: seven columns
/// and every row the generator produces, in production order. Success is
/// owed. The generator must have been built with a nonzero partition
/// count: the adapter's row split divides by it.
pub fn supplier_table(gen: SupplierGenerator<'static>) -> (r: Result<TpchTableProvider, TpchError>)
    requires
        supplier_parts_nonzero(gen),
    ensures
        r is Ok,
        r matches Ok(p) ==> p.wf() && p.table.cols == 7 && p.table.rows as nat
            == supplier_total_rows(gen) && is_supplier_schema(p.table.schema),
{
    let mut src = supplier_adapter(gen);
    provider_from_source(&mut src)
}

/// Materializes the part table from a part row generator: nine columns
/// and every row the generator produces, in production order. Success is
/// owed. The generator must have been built with a nonzero partition
/// count: the adapter's row split divides by it.
pub fn part_table(gen: PartGenerator<'static>) -> (r: Result<TpchTableProvider, TpchError>)
    requires
        part_parts_nonzero(gen),
    ensures
        r is Ok,
        r matches Ok(p) ==> p.wf() && p.table.cols == 9 && p.table.rows as nat
            == part_total_rows(gen) && is_part_schema(p.table.schema),
{
    let mut src = part_adapter(gen);
    provider_from_source(&mut src)
}

/// Materializes the partsupp table from a partsupp row generator: five columns
/// and every row the generator produces, in production order. Success is
/// owed. The generator must have been built with a nonzero partition
/// count: the adapter's row split divides by it.
pub fn partsupp_table(gen: PartSuppGenerator<'static>) -> (r: Result<TpchTableProvider, TpchError>)
    requires
        partsupp_parts_nonzero(gen),
    ensures
        r is Ok,
        r matches Ok(p) ==> p.wf() && p.table.cols == 5 && p.table.rows as nat
            == partsupp_total_rows(gen) && is_partsupp_schema(p.table.schema),
{
    let mut src = partsupp_adapter(gen);
    provider_from_source(&mut src)
}

/// Materializes the orders table from an orders row generator: nine columns
/// and every row the generator produces, in production order. Success is
/// owed. The generator must have been built with a nonzero partition
/// count: the adapter's row split divides by it.
pub fn orders_table(gen: OrderGenerator<'static>) -> (r: Result<TpchTableProvider, TpchError>)
    requires
        order_parts_nonzero(gen),
    ensures
        r is Ok,
        r matches Ok(p) ==> p.wf() && p.table.cols == 9 && p.table.rows as nat
            == order_total_rows(gen) && is_order_schema(p.table.schema),
{
    let mut src = order_adapter(gen);
    provider_from_source(&mut src)
}

/// Materializes the lineitem table from a lineitem row generator: sixteen columns
/// and every row the generator produces, in production order. Success is
/// owed. The generator must have been built with a nonzero partition
/// count: the adapter's row split divides by it.
pub fn lineitem_table(gen: LineItemGenerator<'static>) -> (r: Result<TpchTableProvider, TpchError>)
    requires
        lineitem_parts_nonzero(gen),
    ensures
        r is Ok,
        r matches Ok(p) ==> p.wf() && p.table.cols == 16 && p.table.rows as nat
            == lineitem_total_rows(gen) && is_lineitem_schema(p.table.schema),
{
    let mut src = lineitem_adapter(gen);
    provider_from_source(&mut src)
}

/// Determinism of the table shape: the single-table contracts pin a table's
/// row count to its generator value alone and its column count to a constant,
/// so two runs handed equal generators yield tables of equal row and column
/// counts. Stated for the nation relation; the same argument reads off the
/// contract of each of the eight table functions.
pub proof fn lemma_table_shape_deterministic(
    g1: NationGenerator<'static>,
    g2: NationGenerator<'static>,
    p1: TpchTableProvider,
    p2: TpchTableProvider,
)
    requires
        g1 == g2,
        p1.table.rows as nat == nation_total_rows(g1),
        p1.table.cols == 4,
        p2.table.rows as nat == nation_total_rows(g2),
        p2.table.cols == 4,
    ensures
        p1.table.rows == p2.table.rows,
        p1.table.cols == p2.table.cols,
{
}

} // verus!
