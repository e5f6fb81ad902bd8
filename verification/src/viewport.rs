//! Scroll offsets of the result grid and the grid size derived from the panel size.

use vstd::prelude::*;

verus! {

/// Width, in terminal cells, given to one column of the grid.
pub const COLUMN_WIDTH: u16 = 24;

/// Terminal lines of the results panel that show no data: its border and the header.
pub const PANEL_CHROME: u16 = 3;

/// Rows that a page key scrolls by.
pub const PAGE_STEP: usize = 3;

/// Number of data rows that fit in a results panel `panel_height` lines high.
pub open spec fn visible_rows_spec(panel_height: int) -> int {
    if panel_height - PANEL_CHROME >= 1 {
        panel_height - PANEL_CHROME
    } else {
        1
    }
}

/// Number of columns that fit in a results panel `panel_width` cells wide.
pub open spec fn visible_cols_spec(panel_width: int) -> int {
    if panel_width / (COLUMN_WIDTH as int) >= 1 {
        panel_width / (COLUMN_WIDTH as int)
    } else {
        1
    }
}

/// Data rows that fit in a results panel of the given height. At least one row is
/// shown, however small the panel.
pub fn visible_rows(panel_height: u16) -> (n: usize)
    ensures
        n == visible_rows_spec(panel_height as int),
        n >= 1,
{
    if panel_height > PANEL_CHROME {
        (panel_height - PANEL_CHROME) as usize
    } else {
        1
    }
}

/// Columns that fit in a results panel of the given width. At least one column is
/// shown, however small the panel.
pub fn visible_cols(panel_width: u16) -> (n: usize)
    ensures
        n == visible_cols_spec(panel_width as int),
        n >= 1,
{
    let n = panel_width / COLUMN_WIDTH;
    if n >= 1 {
        n as usize
    } else {
        1
    }
}

/// `offset` moved back by `step`, stopping at 0.
pub open spec fn scrolled_back(offset: usize, step: usize) -> usize {
    if offset >= step {
        (offset - step) as usize
    } else {
        0
    }
}

/// `offset` moved on by `step`. Nothing bounds it but the largest `usize`.
pub open spec fn scrolled_on(offset: usize, step: usize) -> usize {
    if offset + step <= usize::MAX {
        (offset + step) as usize
    } else {
        usize::MAX
    }
}

/// Which part of the result grid is shown: the index of the first row and of the
/// first column on screen.
#[derive(Clone, Copy, Debug, PartialEq, Eq, Structural)]
pub struct Viewport {
    pub row_offset: usize,
    pub col_offset: usize,
}

impl Viewport {
    /// The viewport on the top left corner of the grid.
    pub fn new() -> (v: Viewport)
        ensures
            v == (Viewport { row_offset: 0, col_offset: 0 }),
    {
        Viewport { row_offset: 0, col_offset: 0 }
    }

    /// Back to the top left corner.
    pub fn reset(&mut self)
        ensures
            *final(self) == (Viewport { row_offset: 0, col_offset: 0 }),
    {
        self.row_offset = 0;
        self.col_offset = 0;
    }

    /// Scrolls `step` rows towards the top and stops at the first row.
    pub fn scroll_up(&mut self, step: usize)
        ensures
            final(self).row_offset == scrolled_back(old(self).row_offset, step),
            final(self).col_offset == old(self).col_offset,
            old(self).row_offset == 0 ==> final(self).row_offset == 0,
    {
        self.row_offset = self.row_offset.saturating_sub(step);
    }

    /// Scrolls `step` rows towards the bottom. The offset is not held to the number
    /// of rows: past the last row the grid shows no row.
    pub fn scroll_down(&mut self, step: usize)
        ensures
            final(self).row_offset == scrolled_on(old(self).row_offset, step),
            final(self).col_offset == old(self).col_offset,
    {
        self.row_offset = self.row_offset.saturating_add(step);
    }

    /// Scrolls `step` columns towards the left and stops at the first column.
    pub fn scroll_left(&mut self, step: usize)
        ensures
            final(self).col_offset == scrolled_back(old(self).col_offset, step),
            final(self).row_offset == old(self).row_offset,
            old(self).col_offset == 0 ==> final(self).col_offset == 0,
    {
        self.col_offset = self.col_offset.saturating_sub(step);
    }

    /// Scrolls `step` columns towards the right. The offset is not held to the
    /// number of columns: past the last column the grid shows no column.
    pub fn scroll_right(&mut self, step: usize)
        ensures
            final(self).col_offset == scrolled_on(old(self).col_offset, step),
            final(self).row_offset == old(self).row_offset,
    {
        self.col_offset = self.col_offset.saturating_add(step);
    }
}

} // verus!
