//! The display table: what the results panel shows, and the window cut out of it.

use vstd::prelude::*;

verus! {

/// The texts of a sequence of strings.
pub open spec fn strings_view(cells: Seq<String>) -> Seq<Seq<char>> {
    cells.map_values(|s: String| s@)
}

/// The texts of the cells of a sequence of rows.
pub open spec fn rows_view(rows: Seq<Vec<String>>) -> Seq<Seq<Seq<char>>> {
    rows.map_values(|r: Vec<String>| strings_view(r@))
}

/// The part of `s` that starts at `offset` and is at most `size` long. It is empty
/// where `offset` lies behind the end of `s`.
pub open spec fn window_of<T>(s: Seq<T>, offset: int, size: int) -> Seq<T>
    recommends
        0 <= offset,
        0 <= size,
{
    let start = if offset <= s.len() { offset } else { s.len() as int };
    let end = if offset + size <= s.len() { offset + size } else { s.len() as int };
    s.subrange(start, end)
}

/// What a [`DisplayTable`] holds: column names and rows of cell texts.
pub struct TableView {
    pub headers: Seq<Seq<char>>,
    pub rows: Seq<Seq<Seq<char>>>,
}

impl TableView {
    /// Where there are column names, every row has one cell for each of them.
    pub open spec fn wf(self) -> bool {
        self.headers.len() > 0 ==> forall|r: int|
            0 <= r < self.rows.len() ==> (#[trigger] self.rows[r]).len() == self.headers.len()
    }

    /// The table without names and rows.
    pub open spec fn empty() -> TableView {
        TableView { headers: Seq::empty(), rows: Seq::empty() }
    }

    /// The table that shows one message: no names, one row, one cell.
    pub open spec fn diagnostic(message: Seq<char>) -> TableView {
        TableView { headers: Seq::empty(), rows: seq![seq![message]] }
    }

    /// The part of the table at most `height` rows high and `width` columns wide
    /// whose first cell is the one in row `row_offset` and column `col_offset`.
    pub open spec fn window(self, row_offset: int, col_offset: int, height: int, width: int)
        -> TableView {
        TableView {
            headers: window_of(self.headers, col_offset, width),
            rows: window_of(self.rows, row_offset, height).map_values(
                |row: Seq<Seq<char>>| window_of(row, col_offset, width),
            ),
        }
    }
}

/// A result set, or a message in place of one.
pub struct DisplayTable {
    headers: Vec<String>,
    rows: Vec<Vec<String>>,
}

impl View for DisplayTable {
    type V = TableView;

    closed spec fn view(&self) -> TableView {
        TableView { headers: strings_view(self.headers@), rows: rows_view(self.rows@) }
    }
}

/// A copy of the cells of `row` from `offset` on, at most `size` of them.
pub fn window_row(row: &Vec<String>, offset: usize, size: usize) -> (out: Vec<String>)
    ensures
        strings_view(out@) == window_of(strings_view(row@), offset as int, size as int),
{
    let n = row.len();
    let start: usize = if offset <= n { offset } else { n };
    let end: usize = if size <= n - start { start + size } else { n };
    let mut out: Vec<String> = Vec::new();
    let mut i: usize = start;
    while i < end
        invariant
            start <= i <= end <= n,
            n == row@.len(),
            out@.len() == i - start,
            strings_view(out@) == strings_view(row@).subrange(start as int, i as int),
        decreases end - i,
    {
        let ghost before = out@;
        out.push(row[i].clone());
        i += 1;
        assert forall|k: int| 0 <= k < out@.len() implies strings_view(out@)[k] == strings_view(
            row@,
        )[start + k] by {
            if k < before.len() {
                assert(strings_view(before)[k] == before[k]@);
            }
        }
        assert(strings_view(out@) =~= strings_view(row@).subrange(start as int, i as int));
    }
    out
}

impl DisplayTable {
    #[verifier::type_invariant]
    spec fn inv(self) -> bool {
        self@.wf()
    }

    /// The table without names and rows.
    pub fn empty() -> (t: DisplayTable)
        ensures
            t@ == TableView::empty(),
    {
        let t = DisplayTable { headers: Vec::new(), rows: Vec::new() };
        assert(t@.headers =~= Seq::empty());
        assert(t@.rows =~= Seq::empty());
        t
    }

    /// The table that shows `message` alone: no names, one row, one cell.
    pub fn diagnostic(message: String) -> (t: DisplayTable)
        ensures
            t@ == TableView::diagnostic(message@),
    {
        let mut row: Vec<String> = Vec::new();
        row.push(message);
        let mut rows: Vec<Vec<String>> = Vec::new();
        rows.push(row);
        let t = DisplayTable { headers: Vec::new(), rows };
        assert(t@.headers =~= Seq::empty());
        assert(t@.rows[0] =~= seq![message@]);
        assert(t@.rows =~= seq![seq![message@]]);
        t
    }

    /// The table with these names and rows, if every row fits the names: with at
    /// least one name, each row must have as many cells as there are names.
    pub fn new(headers: Vec<String>, rows: Vec<Vec<String>>) -> (t: Option<DisplayTable>)
        ensures
            ({
                let v = TableView { headers: strings_view(headers@), rows: rows_view(rows@) };
                match t {
                    Some(t) => v.wf() && t@ == v,
                    None => !v.wf(),
                }
            }),
    {
        let ghost v = TableView { headers: strings_view(headers@), rows: rows_view(rows@) };
        if headers.len() > 0 {
            let mut r: usize = 0;
            while r < rows.len()
                invariant
                    r <= rows@.len(),
                    headers@.len() > 0,
                    v == (TableView { headers: strings_view(headers@), rows: rows_view(rows@) }),
                    forall|k: int| 0 <= k < r ==> (#[trigger] v.rows[k]).len() == v.headers.len(),
                decreases rows.len() - r,
            {
                if rows[r].len() != headers.len() {
                    assert(v.rows[r as int].len() != v.headers.len());
                    return None;
                }
                assert(v.rows[r as int].len() == v.headers.len());
                r += 1;
            }
        }
        Some(DisplayTable { headers, rows })
    }

    /// The column names.
    pub fn headers(&self) -> (h: &Vec<String>)
        ensures
            strings_view(h@) == self@.headers,
            self@.wf(),
    {
        proof {
            use_type_invariant(self);
        }
        &self.headers
    }

    /// The rows.
    pub fn rows(&self) -> (r: &Vec<Vec<String>>)
        ensures
            rows_view(r@) == self@.rows,
            self@.wf(),
    {
        proof {
            use_type_invariant(self);
        }
        &self.rows
    }

    /// The part of the table that a grid of `height` rows and `width` columns shows
    /// when its first cell is the one in row `row_offset` and column `col_offset`.
    pub fn window(&self, row_offset: usize, col_offset: usize, height: usize, width: usize) -> (w:
        DisplayTable)
        ensures
            w@ == self@.window(row_offset as int, col_offset as int, height as int, width as int),
            w@.wf(),
    {
        proof {
            use_type_invariant(self);
        }
        let ghost target = self@.window(
            row_offset as int,
            col_offset as int,
            height as int,
            width as int,
        );
        let headers = window_row(&self.headers, col_offset, width);
        let n = self.rows.len();
        let start: usize = if row_offset <= n { row_offset } else { n };
        let end: usize = if height <= n - start { start + height } else { n };
        let mut rows: Vec<Vec<String>> = Vec::new();
        let mut i: usize = start;
        while i < end
            invariant
                start <= i <= end <= n,
                n == self.rows@.len(),
                rows@.len() == i - start,
                forall|k: int|
                    0 <= k < i - start ==> strings_view((#[trigger] rows@[k])@) == window_of(
                        self@.rows[start + k],
                        col_offset as int,
                        width as int,
                    ),
            decreases end - i,
        {
            let row = window_row(&self.rows[i], col_offset, width);
            rows.push(row);
            i += 1;
        }
        proof {
            assert(rows_view(rows@) =~= target.rows);
            lemma_window_is_slice(
                self@,
                row_offset as int,
                col_offset as int,
                height as int,
                width as int,
            );
        }
        DisplayTable { headers, rows }
    }
}

/// A window holds as many rows and columns as the grid has room for and the table
/// has left behind the offsets, and each of its cells is the cell of the table that
/// lies the offsets further on.
pub proof fn lemma_window_is_slice(
    table: TableView,
    row_offset: int,
    col_offset: int,
    height: int,
    width: int,
)
    requires
        0 <= row_offset,
        0 <= col_offset,
        0 <= height,
        0 <= width,
    ensures
        ({
            let w = table.window(row_offset, col_offset, height, width);
            let rows_left = if table.rows.len() >= row_offset {
                table.rows.len() - row_offset
            } else {
                0
            };
            let names_left = if table.headers.len() >= col_offset {
                table.headers.len() - col_offset
            } else {
                0
            };
            &&& w.rows.len() == if height <= rows_left { height } else { rows_left }
            &&& w.headers.len() == if width <= names_left { width } else { names_left }
            &&& forall|j: int|
                0 <= j < w.headers.len() ==> #[trigger] w.headers[j] == table.headers[col_offset
                    + j]
            &&& forall|i: int|
                0 <= i < w.rows.len() ==> {
                    let cells_left = if table.rows[row_offset + i].len() >= col_offset {
                        table.rows[row_offset + i].len() - col_offset
                    } else {
                        0
                    };
                    (#[trigger] w.rows[i]).len() == if width <= cells_left {
                        width
                    } else {
                        cells_left
                    }
                }
            &&& forall|i: int, j: int|
                0 <= i < w.rows.len() && 0 <= j < w.rows[i].len() ==> #[trigger] w.rows[i][j]
                    == table.rows[row_offset + i][col_offset + j]
            &&& table.wf() ==> w.wf()
            &&& table.wf() && table.headers.len() > 0 ==> forall|i: int|
                0 <= i < w.rows.len() ==> (#[trigger] w.rows[i]).len() == w.headers.len()
        }),
{
}

} // verus!
