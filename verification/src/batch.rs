//! Materialization of columnar batches.
//!
//! A table arrives as a finite lazy sequence of arrow `RecordBatch`es sharing
//! one schema. Materializing drains the sequence completely and concatenates
//! everything into a single resident batch; the table must be fully resident
//! before it can be exposed for scanning.
//!
//! Arrow batches and schemas are opaque here: Verus refuses to declare
//! `RecordBatch` itself (its `Index` impl mentions a trait this crate cannot
//! declare), so both are held in opaque carrier structs. What the logic reads
//! of them — row count, column count, schema width, schema conformance — is
//! named by uninterpreted spec functions, and the arrow calls that produce or
//! measure batches are trusted wrappers whose contracts speak over those
//! names.

use vstd::prelude::*;

use crate::args::TpchError;
use arrow::datatypes::SchemaRef;
use arrow::record_batch::RecordBatch;

verus! {

/// One columnar batch of rows. An opaque carrier of an arrow `RecordBatch`.
#[verifier::external_body]
pub struct Batch {
    pub(crate) inner: RecordBatch,
}

/// The schema of a table: an ordered list of named, typed columns. An opaque
/// carrier of an arrow `SchemaRef`.
#[verifier::external_body]
pub struct TableSchema {
    pub(crate) inner: SchemaRef,
}

/// The number of rows a batch holds, as arrow's `RecordBatch::num_rows`
/// reports it.
pub uninterp spec fn rows_of(b: Batch) -> nat;

/// The number of columns a batch holds, as arrow's `RecordBatch::num_columns`
/// reports it.
pub uninterp spec fn cols_of(b: Batch) -> nat;

/// The number of fields of a schema, as arrow's `Schema::fields` reports it.
pub uninterp spec fn schema_width(s: TableSchema) -> nat;

/// Whether the batch was built under exactly the schema `s` wraps: its
/// columns match `s` field for field, in count, name and type.
pub uninterp spec fn conforms(b: Batch, s: TableSchema) -> bool;

/// Whether every column type of `s` is one that arrow's `concat` completes
/// without error: primitive types (integers, dates, decimals) and view types.
/// Byte arrays with 32-bit offsets, lists and dictionaries, whose
/// concatenation can fail on overflow or merge, are not of this kind.
pub uninterp spec fn concat_ready(s: TableSchema) -> bool;

/// The total number of rows over a sequence of batches.
pub open spec fn sum_rows(batches: Seq<Batch>) -> nat
    decreases batches.len(),
{
    if batches.len() == 0 {
        0
    } else {
        sum_rows(batches.drop_last()) + rows_of(batches.last())
    }
}

/// Relies on arrow's `RecordBatch::num_rows`.
#[verifier::external_body]
pub(crate) fn batch_num_rows(b: &Batch) -> (r: usize)
    ensures
        r as nat == rows_of(*b),
{
    b.inner.num_rows()
}

/// Relies on arrow's `RecordBatch::num_columns`.
#[verifier::external_body]
pub(crate) fn batch_num_columns(b: &Batch) -> (r: usize)
    ensures
        r as nat == cols_of(*b),
{
    b.inner.num_columns()
}

/// Relies on arrow's `RecordBatch::schema`: the schema a batch was built
/// under, whose field count is the batch's column count.
#[verifier::external_body]
pub(crate) fn batch_schema(b: &Batch) -> (r: TableSchema)
    ensures
        schema_width(r) == cols_of(*b),
{
    TableSchema { inner: b.inner.schema() }
}

/// Relies on arrow's `Schema` equality: whether the batch was built under
/// exactly the given schema.
#[verifier::external_body]
fn batch_conforms(b: &Batch, s: &TableSchema) -> (r: bool)
    ensures
        r == conforms(*b, *s),
{
    b.inner.schema().as_ref() == s.inner.as_ref()
}

/// Relies on arrow's `concat_batches`: the result holds the rows of all input
/// batches, in input order, under the given schema, with one column per
/// schema field; an empty input yields an empty batch of that schema. Every
/// input batch must conform to the schema — `concat_batches` indexes each
/// batch by the schema's field count, so a narrower batch would fail an
/// index bound instead of returning an error. Under a concat-ready schema
/// no error path remains and the call succeeds.
#[verifier::external_body]
fn concat_all(schema: &TableSchema, batches: &Vec<Batch>) -> (r: Result<Batch, String>)
    requires
        forall|i: int| 0 <= i < batches@.len() ==> conforms(#[trigger] batches@[i], *schema),
    ensures
        r matches Ok(b) ==> rows_of(b) == sum_rows(batches@) && cols_of(b) == schema_width(
            *schema,
        ),
        batches@.len() == 0 ==> r is Ok,
        concat_ready(*schema) ==> r is Ok,
{
    match arrow::compute::concat_batches(&schema.inner, batches.iter().map(|b| &b.inner)) {
        Ok(inner) => Ok(Batch { inner }),
        Err(e) => Err(format!("{e}")),
    }
}

/// A fully resident table: one concatenated batch under its schema, with its
/// measured shape alongside. Immutable by convention once constructed.
pub struct MaterializedTable {
    /// The schema the batches were concatenated under.
    pub schema: TableSchema,
    /// All rows of the table, as one batch.
    pub batch: Batch,
    /// The row count of `batch`.
    pub rows: usize,
    /// The column count of `batch`.
    pub cols: usize,
}

impl MaterializedTable {
    /// The recorded shape is the shape of the resident batch, and the batch
    /// conforms to the recorded schema.
    pub open spec fn wf(&self) -> bool {
        &&& self.rows as nat == rows_of(self.batch)
        &&& self.cols as nat == cols_of(self.batch)
        &&& cols_of(self.batch) == schema_width(self.schema)
    }
}

/// Concatenates a fully drained batch sequence into one materialized table.
///
/// The result holds every input row in input order under the given schema. An
/// empty sequence is not an error: it yields a table with zero rows and the
/// given schema. A batch that does not conform to the schema is an internal
/// consistency failure (a correct adapter never produces one) and surfaces as
/// `TpchError::Internal`; when all batches conform and the schema is
/// concat-ready, success is owed.
pub fn materialize_batches(schema: TableSchema, batches: &Vec<Batch>) -> (r: Result<
    MaterializedTable,
    TpchError,
>)
    ensures
        r matches Ok(t) ==> t.wf() && t.rows as nat == sum_rows(batches@) && t.cols as nat
            == schema_width(schema) && t.schema == schema,
        batches@.len() == 0 ==> r is Ok,
        (forall|i: int| 0 <= i < batches@.len() ==> conforms(#[trigger] batches@[i], schema))
            && concat_ready(schema) ==> r is Ok,
        (exists|i: int| 0 <= i < batches@.len() && !conforms(#[trigger] batches@[i], schema))
            ==> (r matches Err(e) && e is Internal),
{
    let mut i: usize = 0;
    while i < batches.len()
        invariant
            i <= batches@.len(),
            forall|k: int| 0 <= k < i ==> conforms(#[trigger] batches@[k], schema),
        decreases batches@.len() - i,
    {
        if !batch_conforms(&batches[i], &schema) {
            return Err(
                TpchError::Internal("a batch does not conform to the declared schema".to_owned()),
            );
        }
        i += 1;
    }
    let batch = match concat_all(&schema, batches) {
        Ok(b) => b,
        Err(m) => { return Err(TpchError::Internal(m)) },
    };
    let rows = batch_num_rows(&batch);
    let cols = batch_num_columns(&batch);
    Ok(MaterializedTable { schema, batch, rows, cols })
}

/// An empty batch sequence carries no rows: with `materialize_batches`'s
/// contract, an adapter that yields zero batches materializes to a table with
/// zero rows under the adapter's declared schema, not to an error.
pub proof fn lemma_empty_materialization(batches: Seq<Batch>)
    requires
        batches.len() == 0,
    ensures
        sum_rows(batches) == 0,
{
}

/// A finite source of batches over one fixed, concat-ready schema: the
/// batch-adapter capability this crate consumes.
///
/// `width` is the column count of the fixed schema; `good_schema` marks the
/// schema values the source's `schema` method may return, and every produced
/// batch conforms to all of them; `rows_left` is the number of rows the
/// source will still produce — it accounts for every produced batch and
/// reaches zero exactly when the source is exhausted, which also bounds the
/// drain loop.
pub trait BatchSource {
    /// The column count of the source's fixed schema.
    spec fn width(&self) -> nat;

    /// Whether `s` is (a handle to) the source's fixed schema.
    spec fn good_schema(&self, s: TableSchema) -> bool;

    /// How many rows the source will still produce.
    spec fn rows_left(&self) -> nat;

    /// Produces the next batch, or nothing exactly when the source is
    /// exhausted. Every produced batch is non-empty, conforms to the
    /// source's fixed schema, and carries the next `rows_of` rows.
    fn next_batch(&mut self) -> (r: Option<Batch>)
        ensures
            final(self).width() == old(self).width(),
            forall|s: TableSchema|
                #[trigger] final(self).good_schema(s) <==> old(self).good_schema(s),
            r matches Some(b) ==> {
                &&& cols_of(b) == old(self).width()
                &&& forall|s: TableSchema| old(self).good_schema(s) ==> conforms(b, s)
                &&& rows_of(b) + final(self).rows_left() == old(self).rows_left()
                &&& final(self).rows_left() < old(self).rows_left()
            },
            r is None ==> final(self).rows_left() == old(self).rows_left() && old(self).rows_left()
                == 0,
    ;

    /// The source's fixed schema.
    fn schema(&self) -> (r: TableSchema)
        ensures
            schema_width(r) == self.width(),
            self.good_schema(r),
            concat_ready(r),
    ;
}

/// Drains a batch source to exhaustion and materializes everything it
/// produced under the source's schema: all of the source's remaining rows,
/// in production order, under the source's fixed column count. Success is
/// owed.
pub fn materialize_source<S: BatchSource>(src: &mut S) -> (r: Result<MaterializedTable, TpchError>)
    ensures
        final(src).width() == old(src).width(),
        r is Ok,
        r matches Ok(t) ==> t.wf() && t.cols as nat == old(src).width() && t.rows as nat == old(
            src,
        ).rows_left() && old(src).good_schema(t.schema),
{
    let schema = src.schema();
    let mut batches: Vec<Batch> = Vec::new();
    loop
        invariant
            src.width() == old(src).width(),
            forall|s: TableSchema| #[trigger] src.good_schema(s) <==> old(src).good_schema(s),
            schema_width(schema) == old(src).width(),
            old(src).good_schema(schema),
            concat_ready(schema),
            sum_rows(batches@) + src.rows_left() == old(src).rows_left(),
            forall|i: int| 0 <= i < batches@.len() ==> conforms(#[trigger] batches@[i], schema),
        ensures
            src.width() == old(src).width(),
            concat_ready(schema),
            old(src).good_schema(schema),
            sum_rows(batches@) == old(src).rows_left(),
            schema_width(schema) == old(src).width(),
            forall|i: int| 0 <= i < batches@.len() ==> conforms(#[trigger] batches@[i], schema),
        decreases src.rows_left(),
    {
        match src.next_batch() {
            Some(b) => {
                proof {
                    assert(batches@.push(b).drop_last() == batches@);
                }
                batches.push(b);
            },
            None => { break },
        }
    }
    materialize_batches(schema, &batches)
}

} // verus!
