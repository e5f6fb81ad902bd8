//! What the query engine hands back: arrow's record batches and schemas, with the
//! few facts about them that the rest of the crate relies on.
//!
//! Nothing in this file is proved. Each item says what is taken on trust of the
//! arrow or rayon function that it stands for.

use arrow::array::Array;
use arrow::datatypes::Schema;
use arrow::record_batch::RecordBatch;
use rayon::iter::{IntoParallelRefIterator, ParallelIterator};
use vstd::prelude::*;
use crate::app::App;
use crate::results::{batch_display, conversion_view};

verus! {

/// A batch of a result: arrow's `RecordBatch`, columns of equal length under a
/// schema. The caller puts the engine's batch in; the crate reads it through the
/// functions below and nowhere else.
#[verifier::external_body]
pub struct Batch {
    pub inner: RecordBatch,
}

/// arrow's `Schema`: the fields of a result, in order.
#[verifier::external_type_specification]
#[verifier::external_body]
pub struct ExSchema(arrow::datatypes::Schema);

/// The cells of a batch, row by row. Of each cell it holds whether arrow's
/// `Array::is_null` reports the value as null, and what arrow's
/// `array_value_to_string` makes of the value: its text, or the text of the error.
pub uninterp spec fn batch_cells(batch: Batch) -> Seq<Seq<(bool, Result<Seq<char>, Seq<char>>)>>;

/// The names of the fields of a schema, in order.
pub uninterp spec fn schema_names(schema: Schema) -> Seq<Seq<char>>;

/// `RecordBatch::num_rows`: the number of rows of the batch.
#[verifier::external_body]
pub(crate) fn batch_num_rows(batch: &Batch) -> (n: usize)
    ensures
        n == batch_cells(*batch).len(),
{
    batch.inner.num_rows()
}

/// `RecordBatch::num_columns`: the number of columns of the batch, which is the
/// number of cells in each of its rows.
#[verifier::external_body]
pub(crate) fn batch_num_columns(batch: &Batch) -> (n: usize)
    ensures
        forall|r: int|
            0 <= r < batch_cells(*batch).len() ==> (#[trigger] batch_cells(*batch)[r]).len() == n,
{
    batch.inner.num_columns()
}

/// `Array::is_null` on a column of the batch: whether the null buffer of the column
/// marks the value in `row` as null. The column and the row must exist.
#[verifier::external_body]
pub(crate) fn cell_is_null(batch: &Batch, row: usize, column: usize) -> (null: bool)
    requires
        row < batch_cells(*batch).len(),
        column < batch_cells(*batch)[row as int].len(),
    ensures
        null == batch_cells(*batch)[row as int][column as int].0,
{
    batch.inner.column(column).is_null(row)
}

/// `arrow::util::display::array_value_to_string` on a column of the batch: the
/// value in `row` as text, in arrow's default format. Where arrow can make no
/// formatter for the column, the text of its error comes back instead. The column
/// and the row must exist.
#[verifier::external_body]
pub(crate) fn cell_to_string(batch: &Batch, row: usize, column: usize) -> (text: Result<
    String,
    String,
>)
    requires
        row < batch_cells(*batch).len(),
        column < batch_cells(*batch)[row as int].len(),
    ensures
        match text {
            Ok(t) => batch_cells(*batch)[row as int][column as int].1 == Ok::<
                Seq<char>,
                Seq<char>,
            >(t@),
            Err(e) => batch_cells(*batch)[row as int][column as int].1 == Err::<
                Seq<char>,
                Seq<char>,
            >(e@),
        },
{
    match arrow::util::display::array_value_to_string(batch.inner.column(column).as_ref(), row) {
        Ok(text) => Ok(text),
        Err(error) => Err(error.to_string()),
    }
}

/// `Schema::fields` and the length of what it returns: the number of fields.
#[verifier::external_body]
pub(crate) fn schema_len(schema: &Schema) -> (n: usize)
    ensures
        n == schema_names(*schema).len(),
{
    schema.fields().len()
}

/// `Schema::field` and `Field::name`: a copy of the name of field `i`, which must
/// exist.
#[verifier::external_body]
pub(crate) fn schema_field_name(schema: &Schema, i: usize) -> (name: String)
    requires
        i < schema_names(*schema).len(),
    ensures
        name@ == schema_names(*schema)[i as int],
{
    schema.field(i).name().clone()
}

/// rayon's `par_iter`, `map` and `collect` into a `Vec`: every batch is converted,
/// on whatever thread, and the results stand in the order of the batches.
#[verifier::external_body]
pub(crate) fn convert_batches(batches: &Vec<Batch>) -> (out: Vec<
    Result<Vec<Vec<String>>, String>,
>)
    ensures
        out@.len() == batches@.len(),
        forall|i: int|
            0 <= i < batches@.len() ==> conversion_view(#[trigger] out@[i])
                == batch_display(batches@[i]),
{
    batches.par_iter().map(|batch| App::read_batch_to_array(batch)).collect()
}

} // verus!
