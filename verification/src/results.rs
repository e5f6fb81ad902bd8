//! The result of a query as the display shows it: the engine's batches turned into
//! rows of texts.

use arrow::datatypes::Schema;
use vstd::prelude::*;
use crate::app::App;
use crate::engine::{
    batch_cells, batch_num_columns, batch_num_rows, cell_is_null, cell_to_string, convert_batches,
    schema_field_name, schema_len, schema_names, Batch,
};
use crate::table::{rows_view, strings_view, TableView};

verus! {

/// The text shown in place of a null value.
pub open spec fn null_text() -> Seq<char> {
    seq!['n', 'u', 'l', 'l']
}

/// The text of a cell, or the text of the error where the value has none: `null`
/// for a null value, else what the engine's formatter makes of the value.
pub open spec fn cell_display(cell: (bool, Result<Seq<char>, Seq<char>>)) -> Result<
    Seq<char>,
    Seq<char>,
> {
    if cell.0 {
        Ok(null_text())
    } else {
        cell.1
    }
}

/// The texts of the cells of a row, or the error of the first cell that has none.
pub open spec fn row_display(row: Seq<(bool, Result<Seq<char>, Seq<char>>)>) -> Result<
    Seq<Seq<char>>,
    Seq<char>,
>
    decreases row.len(),
{
    if row.len() == 0 {
        Ok(Seq::empty())
    } else {
        match row_display(row.drop_last()) {
            Err(e) => Err(e),
            Ok(cells) => match cell_display(row.last()) {
                Err(e) => Err(e),
                Ok(text) => Ok(cells.push(text)),
            },
        }
    }
}

/// The texts of the cells of some rows, or the error of the first cell, row by row,
/// that has no text.
pub open spec fn rows_display(rows: Seq<Seq<(bool, Result<Seq<char>, Seq<char>>)>>) -> Result<
    Seq<Seq<Seq<char>>>,
    Seq<char>,
>
    decreases rows.len(),
{
    if rows.len() == 0 {
        Ok(Seq::empty())
    } else {
        match rows_display(rows.drop_last()) {
            Err(e) => Err(e),
            Ok(done) => match row_display(rows.last()) {
                Err(e) => Err(e),
                Ok(row) => Ok(done.push(row)),
            },
        }
    }
}

/// The rows of a batch as texts.
pub open spec fn batch_display(batch: Batch) -> Result<Seq<Seq<Seq<char>>>, Seq<char>> {
    rows_display(batch_cells(batch))
}

/// The rows of a conversion as sequences, or the text of its error.
pub open spec fn conversion_view(converted: Result<Vec<Vec<String>>, String>) -> Result<
    Seq<Seq<Seq<char>>>,
    Seq<char>,
> {
    match converted {
        Ok(rows) => Ok(rows_view(rows@)),
        Err(e) => Err(e@),
    }
}

/// The rows of some batches as texts, batch after batch in the order of the
/// batches, or the error of the first batch that has a cell without text.
pub open spec fn batches_display(batches: Seq<Batch>) -> Result<Seq<Seq<Seq<char>>>, Seq<char>>
    decreases batches.len(),
{
    if batches.len() == 0 {
        Ok(Seq::empty())
    } else {
        match batches_display(batches.drop_last()) {
            Err(e) => Err(e),
            Ok(done) => match batch_display(batches.last()) {
                Err(e) => Err(e),
                Ok(rows) => Ok(done + rows),
            },
        }
    }
}

/// Number of rows in some batches together.
pub open spec fn total_rows(batches: Seq<Batch>) -> nat
    decreases batches.len(),
{
    if batches.len() == 0 {
        0
    } else {
        total_rows(batches.drop_last()) + batch_cells(batches.last()).len()
    }
}

/// The table that shows the result of a query: the names of the schema over the
/// rows of the batches. Where a value has no text the table shows the error, and
/// where the rows do not fit the names it says so.
pub open spec fn result_table(names: Seq<Seq<char>>, batches: Seq<Batch>) -> TableView {
    match batches_display(batches) {
        Err(e) => TableView::diagnostic(e),
        Ok(rows) => {
            let table = TableView { headers: names, rows };
            if table.wf() {
                table
            } else {
                TableView::diagnostic("result rows do not match the result columns"@)
            }
        },
    }
}

impl App {
    /// Turns a batch of the engine's result into rows of texts: one row for each
    /// row of the batch, one text for each column, `null` for a null value. Where
    /// the engine cannot format a value, the text of its error comes back instead
    /// of the rows.
    pub fn read_batch_to_array(batch: &Batch) -> (rows: Result<Vec<Vec<String>>, String>)
        ensures
            conversion_view(rows) == batch_display(*batch),
    {
        let num_rows = batch_num_rows(batch);
        let num_columns = batch_num_columns(batch);
        let ghost cells = batch_cells(*batch);
        let mut rows: Vec<Vec<String>> = Vec::new();
        let mut row: usize = 0;
        assert(rows_view(rows@) =~= Seq::empty());
        while row < num_rows
            invariant
                row <= num_rows,
                num_rows == cells.len(),
                cells == batch_cells(*batch),
                forall|r: int| 0 <= r < cells.len() ==> (#[trigger] cells[r]).len() == num_columns,
                rows_display(cells.take(row as int)) == Ok::<Seq<Seq<Seq<char>>>, Seq<char>>(
                    rows_view(rows@),
                ),
            decreases num_rows - row,
        {
            let ghost line = cells[row as int];
            let mut values: Vec<String> = Vec::new();
            let mut column: usize = 0;
            assert(strings_view(values@) =~= Seq::empty());
            while column < num_columns
                invariant
                    row < num_rows,
                    num_rows == cells.len(),
                    cells == batch_cells(*batch),
                    line == cells[row as int],
                    line.len() == num_columns,
                    column <= num_columns,
                    rows_display(cells.take(row as int)) is Ok,
                    row_display(line.take(column as int)) == Ok::<Seq<Seq<char>>, Seq<char>>(
                        strings_view(values@),
                    ),
                decreases num_columns - column,
            {
                let ghost done = values@;
                assert(line.take(column + 1).drop_last() =~= line.take(column as int));
                let value = if cell_is_null(batch, row, column) {
                    proof {
                        reveal_strlit("null");
                    }
                    assert("null"@ =~= null_text());
                    "null".to_owned()
                } else {
                    match cell_to_string(batch, row, column) {
                        Ok(text) => text,
                        Err(e) => {
                            proof {
                                let failed = Err::<Seq<Seq<char>>, Seq<char>>(e@);
                                assert(line.take(column + 1).last() == line[column as int]);
                                assert(cell_display(line[column as int]) == Err::<
                                    Seq<char>,
                                    Seq<char>,
                                >(e@));
                                assert(row_display(line.take(column + 1)) == failed);
                                lemma_row_display_fails(line, column + 1);
                                assert(cells.take(row + 1).drop_last() =~= cells.take(row as int));
                                assert(cells.take(row + 1).last() == line);
                                assert(row_display(line) == failed);
                                assert(rows_display(cells.take(row + 1)) == Err::<
                                    Seq<Seq<Seq<char>>>,
                                    Seq<char>,
                                >(e@));
                                lemma_rows_display_fails(cells, row + 1);
                            }
                            return Err(e);
                        },
                    }
                };
                values.push(value);
                column += 1;
                assert(strings_view(values@) =~= strings_view(done).push(value@));
            }
            let ghost done = rows@;
            assert(line.take(column as int) =~= line);
            assert(cells.take(row + 1).drop_last() =~= cells.take(row as int));
            rows.push(values);
            row += 1;
            assert(rows_view(rows@) =~= rows_view(done).push(strings_view(values@)));
        }
        assert(cells.take(row as int) =~= cells);
        Ok(rows)
    }

    /// The names of the fields of `schema`, in order.
    pub fn schema_headers(schema: &Schema) -> (headers: Vec<String>)
        ensures
            strings_view(headers@) == schema_names(*schema),
    {
        let n = schema_len(schema);
        let mut headers: Vec<String> = Vec::new();
        let mut i: usize = 0;
        assert(strings_view(headers@) =~= schema_names(*schema).take(0));
        while i < n
            invariant
                i <= n,
                n == schema_names(*schema).len(),
                headers@.len() == i,
                strings_view(headers@) == schema_names(*schema).take(i as int),
            decreases n - i,
        {
            let ghost done = headers@;
            let name = schema_field_name(schema, i);
            headers.push(name);
            i += 1;
            assert(strings_view(headers@) =~= strings_view(done).push(name@));
            assert(strings_view(headers@) =~= schema_names(*schema).take(i as int));
        }
        assert(schema_names(*schema).take(i as int) =~= schema_names(*schema));
        headers
    }

    /// The rows of `batches` as texts, batch after batch in the order of the
    /// batches and row after row within each. Where the engine cannot format a
    /// value, the text of its error comes back instead of the rows.
    pub fn read_batches(batches: &Vec<Batch>) -> (rows: Result<Vec<Vec<String>>, String>)
        ensures
            conversion_view(rows) == batches_display(batches@),
    {
        let converted = convert_batches(batches);
        let ghost parts = converted@;
        let mut rows: Vec<Vec<String>> = Vec::new();
        assert(rows_view(rows@) =~= Seq::empty());
        assert(batches@.take(0) =~= Seq::empty());
        for part in it: converted
            invariant
                it.seq() == parts,
                parts.len() == batches@.len(),
                forall|i: int|
                    0 <= i < batches@.len() ==> conversion_view(#[trigger] parts[i])
                        == batch_display(batches@[i]),
                batches_display(batches@.take(it.index() as int)) == Ok::<
                    Seq<Seq<Seq<char>>>,
                    Seq<char>,
                >(rows_view(rows@)),
        {
            let ghost at = it.index() as int;
            let ghost done = rows@;
            assert(batches@.take(at + 1).drop_last() =~= batches@.take(at));
            assert(batches@.take(at + 1).last() == batches@[at]);
            assert(conversion_view(parts[at]) == batch_display(batches@[at]));
            match part {
                Ok(mut more) => {
                    let ghost added = more@;
                    rows.append(&mut more);
                    assert(rows_view(rows@) =~= rows_view(done) + rows_view(added));
                },
                Err(e) => {
                    proof {
                        lemma_batches_display_fails(batches@, at + 1);
                    }
                    return Err(e);
                },
            }
        }
        assert(batches@.take(batches@.len() as int) =~= batches@);
        Ok(rows)
    }
}

/// Batches that have no text up to some batch have none as a whole, and the error
/// is the same.
proof fn lemma_batches_display_fails(batches: Seq<Batch>, upto: int)
    requires
        0 <= upto <= batches.len(),
        batches_display(batches.take(upto)) is Err,
    ensures
        batches_display(batches) == batches_display(batches.take(upto)),
    decreases batches.len() - upto,
{
    if upto < batches.len() {
        assert(batches.take(upto + 1).drop_last() =~= batches.take(upto));
        lemma_batches_display_fails(batches, upto + 1);
    } else {
        assert(batches.take(upto) =~= batches);
    }
}

/// A row that has no text up to some cell has none as a whole, and the error is
/// the same.
proof fn lemma_row_display_fails(row: Seq<(bool, Result<Seq<char>, Seq<char>>)>, upto: int)
    requires
        0 <= upto <= row.len(),
        row_display(row.take(upto)) is Err,
    ensures
        row_display(row) == row_display(row.take(upto)),
    decreases row.len() - upto,
{
    if upto < row.len() {
        assert(row.take(upto + 1).drop_last() =~= row.take(upto));
        lemma_row_display_fails(row, upto + 1);
    } else {
        assert(row.take(upto) =~= row);
    }
}

/// Rows that have no text up to some row have none as a whole, and the error is the
/// same.
proof fn lemma_rows_display_fails(
    rows: Seq<Seq<(bool, Result<Seq<char>, Seq<char>>)>>,
    upto: int,
)
    requires
        0 <= upto <= rows.len(),
        rows_display(rows.take(upto)) is Err,
    ensures
        rows_display(rows) == rows_display(rows.take(upto)),
    decreases rows.len() - upto,
{
    if upto < rows.len() {
        assert(rows.take(upto + 1).drop_last() =~= rows.take(upto));
        lemma_rows_display_fails(rows, upto + 1);
    } else {
        assert(rows.take(upto) =~= rows);
    }
}

/// A row has texts exactly where each of its cells has one, and then as many as
/// it has cells, each the text of the cell in its place. Else its error is that of
/// the first cell without a text.
pub proof fn lemma_row_display(row: Seq<(bool, Result<Seq<char>, Seq<char>>)>)
    ensures
        match row_display(row) {
            Ok(texts) => {
                &&& texts.len() == row.len()
                &&& forall|j: int|
                    0 <= j < row.len() ==> cell_display(#[trigger] row[j]) == Ok::<
                        Seq<char>,
                        Seq<char>,
                    >(texts[j])
            },
            Err(e) => exists|j: int|
                {
                    &&& 0 <= j < row.len()
                    &&& cell_display(#[trigger] row[j]) == Err::<Seq<char>, Seq<char>>(e)
                    &&& forall|k: int| 0 <= k < j ==> cell_display(#[trigger] row[k]) is Ok
                },
        },
    decreases row.len(),
{
    if row.len() > 0 {
        let front = row.drop_last();
        lemma_row_display(front);
        match row_display(front) {
            Ok(texts) => {
                match cell_display(row.last()) {
                    Ok(text) => {
                        assert forall|j: int| 0 <= j < row.len() implies cell_display(
                            #[trigger] row[j],
                        ) == Ok::<Seq<char>, Seq<char>>(texts.push(text)[j]) by {
                            if j < front.len() {
                                assert(row[j] == front[j]);
                            }
                        }
                    },
                    Err(e) => {
                        let j = row.len() - 1;
                        assert forall|k: int| 0 <= k < j implies cell_display(
                            #[trigger] row[k],
                        ) is Ok by {
                            assert(row[k] == front[k]);
                        }
                        assert(cell_display(row[j]) == Err::<Seq<char>, Seq<char>>(e));
                    },
                }
            },
            Err(e) => {
                let j = choose|j: int|
                    {
                        &&& 0 <= j < front.len()
                        &&& cell_display(#[trigger] front[j]) == Err::<Seq<char>, Seq<char>>(e)
                        &&& forall|k: int| 0 <= k < j ==> cell_display(#[trigger] front[k]) is Ok
                    };
                assert(row[j] == front[j]);
                assert forall|k: int| 0 <= k < j implies cell_display(#[trigger] row[k]) is Ok by {
                    assert(row[k] == front[k]);
                }
            },
        }
    }
}

/// Rows have texts exactly where each of them has, and then there are as many rows
/// of texts as rows, each the texts of the row in its place. Else the error is
/// that of the first row without texts.
pub proof fn lemma_rows_display(rows: Seq<Seq<(bool, Result<Seq<char>, Seq<char>>)>>)
    ensures
        match rows_display(rows) {
            Ok(out) => {
                &&& out.len() == rows.len()
                &&& forall|r: int|
                    0 <= r < rows.len() ==> row_display(#[trigger] rows[r]) == Ok::<
                        Seq<Seq<char>>,
                        Seq<char>,
                    >(out[r])
            },
            Err(e) => exists|r: int|
                {
                    &&& 0 <= r < rows.len()
                    &&& row_display(#[trigger] rows[r]) == Err::<Seq<Seq<char>>, Seq<char>>(e)
                    &&& forall|k: int| 0 <= k < r ==> row_display(#[trigger] rows[k]) is Ok
                },
        },
    decreases rows.len(),
{
    if rows.len() > 0 {
        let front = rows.drop_last();
        lemma_rows_display(front);
        match rows_display(front) {
            Ok(out) => {
                match row_display(rows.last()) {
                    Ok(row) => {
                        assert forall|r: int| 0 <= r < rows.len() implies row_display(
                            #[trigger] rows[r],
                        ) == Ok::<Seq<Seq<char>>, Seq<char>>(out.push(row)[r]) by {
                            if r < front.len() {
                                assert(rows[r] == front[r]);
                            }
                        }
                    },
                    Err(e) => {
                        let r = rows.len() - 1;
                        assert forall|k: int| 0 <= k < r implies row_display(
                            #[trigger] rows[k],
                        ) is Ok by {
                            assert(rows[k] == front[k]);
                        }
                        assert(row_display(rows[r]) == Err::<Seq<Seq<char>>, Seq<char>>(e));
                    },
                }
            },
            Err(e) => {
                let r = choose|r: int|
                    {
                        &&& 0 <= r < front.len()
                        &&& row_display(#[trigger] front[r]) == Err::<Seq<Seq<char>>, Seq<char>>(
                            e,
                        )
                        &&& forall|k: int| 0 <= k < r ==> row_display(#[trigger] front[k]) is Ok
                    };
                assert(rows[r] == front[r]);
                assert forall|k: int| 0 <= k < r implies row_display(#[trigger] rows[k]) is Ok by {
                    assert(rows[k] == front[k]);
                }
            },
        }
    }
}

/// The piece of `all` in which the rows of batch `i` stand when `all` holds the rows
/// of `batches`, batch after batch.
pub open spec fn rows_of_batch<T>(all: Seq<T>, batches: Seq<Batch>, i: int) -> Seq<T> {
    let from = total_rows(batches.take(i)) as int;
    all.subrange(from, from + batch_cells(batches[i]).len())
}

/// The number of rows in the first batches grows with their number.
proof fn lemma_total_rows_grows(batches: Seq<Batch>, i: int, j: int)
    requires
        0 <= i <= j <= batches.len(),
    ensures
        total_rows(batches.take(i)) <= total_rows(batches.take(j)),
    decreases j - i,
{
    if i < j {
        lemma_total_rows_grows(batches, i, j - 1);
        assert(batches.take(j).drop_last() =~= batches.take(j - 1));
    }
}

/// Batches have texts exactly where each of them has. Then the rows of texts are
/// as many as the batches have rows together, and the rows of each batch stand in
/// one piece behind the rows of the batches before it. Else the error is that of
/// the first batch without texts.
pub proof fn lemma_batches_display(batches: Seq<Batch>)
    ensures
        match batches_display(batches) {
            Ok(all) => {
                &&& all.len() == total_rows(batches)
                &&& forall|i: int|
                    0 <= i < batches.len() ==> batch_display(#[trigger] batches[i]) == Ok::<
                        Seq<Seq<Seq<char>>>,
                        Seq<char>,
                    >(
                        rows_of_batch(all, batches, i),
                    )
            },
            Err(e) => exists|i: int|
                {
                    &&& 0 <= i < batches.len()
                    &&& batch_display(#[trigger] batches[i]) == Err::<
                        Seq<Seq<Seq<char>>>,
                        Seq<char>,
                    >(e)
                    &&& forall|k: int| 0 <= k < i ==> batch_display(#[trigger] batches[k]) is Ok
                },
        },
    decreases batches.len(),
{
    if batches.len() > 0 {
        let front = batches.drop_last();
        let n = front.len() as int;
        lemma_batches_display(front);
        assert(batches.take(n) =~= front);
        match batches_display(front) {
            Ok(done) => {
                match batch_display(batches.last()) {
                    Ok(rows) => {
                        let all = done + rows;
                        lemma_rows_display(batch_cells(batches.last()));
                        assert forall|i: int| 0 <= i < batches.len() implies batch_display(
                            #[trigger] batches[i],
                        ) == Ok::<Seq<Seq<Seq<char>>>, Seq<char>>(
                            rows_of_batch(all, batches, i),
                        ) by {
                            if i < n {
                                assert(batches[i] == front[i]);
                                assert(batches.take(i) =~= front.take(i));
                                lemma_total_rows_grows(front, i + 1, n);
                                assert(front.take(i + 1).drop_last() =~= front.take(i));
                                assert(front.take(n) =~= front);
                                let from = total_rows(front.take(i)) as int;
                                let to = from + batch_cells(front[i]).len();
                                assert(all.subrange(from, to) =~= done.subrange(from, to));
                            } else {
                                assert(all.subrange(done.len() as int, done.len() + rows.len() as int)
                                    =~= rows);
                            }
                        }
                    },
                    Err(e) => {
                        assert forall|k: int| 0 <= k < n implies batch_display(
                            #[trigger] batches[k],
                        ) is Ok by {
                            assert(batches[k] == front[k]);
                        }
                        assert(batch_display(batches[n]) == Err::<Seq<Seq<Seq<char>>>, Seq<char>>(
                            e,
                        ));
                    },
                }
            },
            Err(e) => {
                let i = choose|i: int|
                    {
                        &&& 0 <= i < front.len()
                        &&& batch_display(#[trigger] front[i]) == Err::<
                            Seq<Seq<Seq<char>>>,
                            Seq<char>,
                        >(e)
                        &&& forall|k: int| 0 <= k < i ==> batch_display(#[trigger] front[k]) is Ok
                    };
                assert(batches[i] == front[i]);
                assert forall|k: int| 0 <= k < i implies batch_display(
                    #[trigger] batches[k],
                ) is Ok by {
                    assert(batches[k] == front[k]);
                }
            },
        }
    }
}

/// A result in which every value has a text and every row has a cell for each
/// field of the schema is shown whole: the column names are the names of the
/// fields, the rows are as many as the batches hold together, and they stand in
/// the order of the batches, the rows of each batch in one piece.
pub proof fn lemma_result_is_shown_whole(names: Seq<Seq<char>>, batches: Seq<Batch>)
    requires
        batches_display(batches) is Ok,
        forall|i: int, r: int|
            0 <= i < batches.len() && 0 <= r < batch_cells(batches[i]).len() ==> (
            #[trigger] batch_cells(batches[i])[r]).len() == names.len(),
    ensures
        ({
            let table = result_table(names, batches);
            &&& table.wf()
            &&& table.headers == names
            &&& table.rows.len() == total_rows(batches)
            &&& forall|r: int| 0 <= r < table.rows.len() ==> (#[trigger] table.rows[r]).len()
                == names.len()
            &&& forall|i: int|
                0 <= i < batches.len() ==> batch_display(#[trigger] batches[i]) == Ok::<
                    Seq<Seq<Seq<char>>>,
                    Seq<char>,
                >(
                    rows_of_batch(table.rows, batches, i),
                )
        }),
{
    lemma_batches_display(batches);
    let all = batches_display(batches)->Ok_0;
    assert forall|r: int| 0 <= r < all.len() implies (#[trigger] all[r]).len() == names.len() by {
        lemma_shown_row_width(batches, r, names.len());
    }
}

/// Where every value has a text, a row on display has as many cells as the row of
/// the batch that it shows.
proof fn lemma_shown_row_width(batches: Seq<Batch>, r: int, width: nat)
    requires
        batches_display(batches) is Ok,
        0 <= r < total_rows(batches),
        forall|i: int, k: int|
            0 <= i < batches.len() && 0 <= k < batch_cells(batches[i]).len() ==> (
            #[trigger] batch_cells(batches[i])[k]).len() == width,
    ensures
        r < batches_display(batches)->Ok_0.len(),
        batches_display(batches)->Ok_0[r].len() == width,
{
    let all = batches_display(batches)->Ok_0;
    lemma_batches_display(batches);
    lemma_row_of_batch(batches, r);
    let (i, k) = choose|i: int, k: int| #[trigger] is_row_of_batch(batches, r, i, k);
    let cells = batch_cells(batches[i]);
    let part = rows_of_batch(all, batches, i);
    assert(batch_display(batches[i]) == Ok::<Seq<Seq<Seq<char>>>, Seq<char>>(part));
    assert(rows_display(cells) == Ok::<Seq<Seq<Seq<char>>>, Seq<char>>(part));
    lemma_rows_display(cells);
    assert(part.len() == cells.len());
    assert(row_display(cells[k]) == Ok::<Seq<Seq<char>>, Seq<char>>(part[k]));
    lemma_row_display(cells[k]);
    assert(part[k].len() == cells[k].len());
    lemma_total_rows_grows(batches, i + 1, batches.len() as int);
    assert(batches.take(i + 1).drop_last() =~= batches.take(i));
    assert(batches.take(batches.len() as int) =~= batches);
    assert(part[k] == all[r]);
}

/// Whether row `r` of `batches` taken together is row `k` of batch `i`.
pub open spec fn is_row_of_batch(batches: Seq<Batch>, r: int, i: int, k: int) -> bool {
    &&& 0 <= i < batches.len()
    &&& 0 <= k < batch_cells(batches[i]).len()
    &&& r == total_rows(batches.take(i)) + k
}

/// Every row of some batches together is a row of one of them.
proof fn lemma_row_of_batch(batches: Seq<Batch>, r: int)
    requires
        0 <= r < total_rows(batches),
    ensures
        exists|i: int, k: int| #[trigger] is_row_of_batch(batches, r, i, k),
    decreases batches.len(),
{
    let n = batches.len() - 1;
    let front = batches.drop_last();
    assert(batches.take(n) =~= front);
    if r < total_rows(front) {
        lemma_row_of_batch(front, r);
        let (i, k) = choose|i: int, k: int| #[trigger] is_row_of_batch(front, r, i, k);
        assert(batches[i] == front[i]);
        assert(batches.take(i) =~= front.take(i));
        assert(is_row_of_batch(batches, r, i, k));
    } else {
        let k = r - total_rows(front);
        assert(is_row_of_batch(batches, r, n, k));
    }
}

} // verus!
