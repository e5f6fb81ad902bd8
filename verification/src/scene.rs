//! What a frame shows: the outcome of rendering, ready to be drawn.

use vstd::prelude::*;
use crate::table::{DisplayTable, TableView};

verus! {

/// One frame of the console. The results panel carries the title and the grid; the
/// command panel carries the line, split at the cursor.
pub struct Scene {
    /// Title of the results panel: the labels of the loaded tables.
    pub title: String,
    /// The part of the display table that is on screen.
    pub grid: DisplayTable,
    /// Number of columns that the grid is laid out for.
    pub columns: usize,
    /// The line up to the cursor.
    pub before_cursor: String,
    /// The character under the cursor, drawn with emphasis. `None` stands for the
    /// empty cell drawn behind the text when the cursor is at its end.
    pub at_cursor: Option<char>,
    /// The line behind the character under the cursor.
    pub after_cursor: String,
}

/// A [`Scene`] with its texts as sequences of characters.
pub struct SceneView {
    pub title: Seq<char>,
    pub grid: TableView,
    pub columns: int,
    pub before_cursor: Seq<char>,
    pub at_cursor: Option<char>,
    pub after_cursor: Seq<char>,
}

impl View for Scene {
    type V = SceneView;

    open spec fn view(&self) -> SceneView {
        SceneView {
            title: self.title@,
            grid: self.grid@,
            columns: self.columns as int,
            before_cursor: self.before_cursor@,
            at_cursor: self.at_cursor,
            after_cursor: self.after_cursor@,
        }
    }
}

} // verus!
