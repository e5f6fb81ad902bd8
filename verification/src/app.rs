//! The session: what the console holds between two key presses, and what each key
//! press does to it.

use arrow::datatypes::Schema;
use vstd::prelude::*;
use vstd::string::*;
use crate::command::{
    add_file_to_ctx, classify_chars, classify_spec, clear_token, create_token, file_format_spec,
    Command, CommandView, FileFormat, Registration,
};
use crate::editor::{EditorView, LineEditor};
use crate::engine::{schema_names, Batch};
use crate::history::{History, HistoryView, Recall, RecallView};
use crate::scene::{Scene, SceneView};
use crate::results::result_table;
use crate::table::{strings_view, DisplayTable, TableView};
use crate::text::{
    eq_ignore_ascii_case, is_blank, join, join_spec, lemma_blank_iff_trim_empty, push_char,
    string_of, trim_end_spec, trim_spec,
};
use crate::viewport::{
    scrolled_back, scrolled_on, visible_cols, visible_cols_spec, visible_rows, visible_rows_spec,
    Viewport, PAGE_STEP,
};

verus! {

/// One event of the input, as the session understands it.
#[derive(Clone, Copy, Debug, PartialEq, Eq, Structural)]
pub enum Input {
    /// Leave the session.
    Quit,
    /// Bring back an older command.
    Up,
    /// Bring back a newer command.
    Down,
    /// Move the cursor to the left.
    Left,
    /// Move the cursor to the right.
    Right,
    /// Show the columns further left.
    Home,
    /// Show the columns further right.
    End,
    /// Show the rows further up.
    PageUp,
    /// Show the rows further down.
    PageDown,
    /// Submit the command line.
    Submit,
    /// Delete the character before the cursor.
    Delete,
    /// Type a character.
    Insert(char),
    /// Anything else: a key without meaning, a key release, a resize.
    Ignored,
}

/// What the caller has to do after an event before it draws the next frame.
#[derive(Debug)]
pub enum Action {
    /// Nothing.
    Continue,
    /// End the session.
    Quit,
    /// Let the user pick a file, then call [`App::create_table`].
    PickFile,
    /// Run this query, then call [`App::show_batches`] or [`App::send_message`].
    Execute(String),
}

/// An [`Action`] with the query as a sequence of characters.
pub enum ActionView {
    Continue,
    Quit,
    PickFile,
    Execute(Seq<char>),
}

impl View for Action {
    type V = ActionView;

    open spec fn view(&self) -> ActionView {
        match self {
            Action::Continue => ActionView::Continue,
            Action::Quit => ActionView::Quit,
            Action::PickFile => ActionView::PickFile,
            Action::Execute(q) => ActionView::Execute(q@),
        }
    }
}

/// A file that the user picked.
#[derive(Debug)]
pub struct PickedFile {
    /// The full path of the file.
    pub path: String,
    /// The last part of the path: the name of the file itself.
    pub name: String,
}

/// A table that is about to be registered.
#[derive(Debug)]
pub struct NewTable {
    /// What the query engine is asked to do.
    pub registration: Registration,
    /// How the title of the results panel will call the table.
    pub label: String,
}

/// A [`NewTable`] with its texts as sequences of characters.
pub struct NewTableView {
    pub table_name: Seq<char>,
    pub file_name: Seq<char>,
    pub format: FileFormat,
    pub label: Seq<char>,
}

impl View for NewTable {
    type V = NewTableView;

    open spec fn view(&self) -> NewTableView {
        NewTableView {
            table_name: self.registration.table_name@,
            file_name: self.registration.file_name@,
            format: self.registration.format,
            label: self.label@,
        }
    }
}

/// What an [`App`] holds.
pub struct AppView {
    /// The labels of the registered tables, oldest first.
    pub file_names: Seq<Seq<char>>,
    pub history: HistoryView,
    pub editor: EditorView,
    pub table: TableView,
    pub viewport: Viewport,
    /// The code of the letter that names the next table.
    pub next_table_name: u8,
}

impl AppView {
    /// A fresh session: nothing typed, nothing shown, the first table to be `a`.
    pub open spec fn new() -> AppView {
        AppView {
            file_names: Seq::empty(),
            history: HistoryView::empty(),
            editor: EditorView::empty(),
            table: TableView::empty(),
            viewport: Viewport { row_offset: 0, col_offset: 0 },
            next_table_name: 97,
        }
    }

    /// The command line after the history asked for `recall`.
    pub open spec fn recalled(self, recall: RecallView) -> EditorView {
        match recall {
            RecallView::Keep => self.editor,
            RecallView::Clear => EditorView::empty(),
            RecallView::Load(text) => EditorView::loaded(text),
        }
    }

    /// The session after a step towards older commands.
    pub open spec fn get_next_command(self) -> AppView {
        AppView {
            editor: self.recalled(self.history.next_recall()),
            history: self.history.next(),
            ..self
        }
    }

    /// The session after a step towards newer commands.
    pub open spec fn get_prev_command(self) -> AppView {
        AppView {
            editor: self.recalled(self.history.prev_recall()),
            history: self.history.prev(),
            ..self
        }
    }

    /// The session with `table` on display, seen from its top left corner, and the
    /// cursor at the start of the command line.
    pub open spec fn show(self, table: TableView) -> AppView {
        AppView {
            table,
            viewport: Viewport { row_offset: 0, col_offset: 0 },
            editor: self.editor.move_home(),
            ..self
        }
    }

    /// The session with `text` on display as a message.
    pub open spec fn send_message(self, text: Seq<char>) -> AppView {
        self.show(TableView::diagnostic(text))
    }

    /// The session after the command line was submitted. A blank line changes
    /// nothing. Any other line goes to the front of the history and leaves an empty
    /// line behind; the walk through the history and the viewport start afresh.
    /// The word that clears the display empties the table.
    pub open spec fn parse_command(self) -> AppView {
        let command = classify_spec(self.editor.text);
        if command is Blank {
            self
        } else {
            AppView {
                history: self.history.record(self.editor.text).reset(),
                editor: EditorView::empty(),
                viewport: Viewport { row_offset: 0, col_offset: 0 },
                table: if command is Clear {
                    TableView::empty()
                } else {
                    self.table
                },
                ..self
            }
        }
    }

    /// What submitting the command line asks of the caller.
    pub open spec fn parse_action(self) -> ActionView {
        match classify_spec(self.editor.text) {
            CommandView::Blank => ActionView::Continue,
            CommandView::CreateTable => ActionView::PickFile,
            CommandView::Clear => ActionView::Continue,
            CommandView::Query(query) => ActionView::Execute(query),
        }
    }

    /// The session after one event.
    pub open spec fn run(self, input: Input) -> AppView {
        match input {
            Input::Quit => self,
            Input::Up => self.get_next_command(),
            Input::Down => self.get_prev_command(),
            Input::Left => AppView { editor: self.editor.move_left(), ..self },
            Input::Right => AppView { editor: self.editor.move_right(), ..self },
            Input::Home => AppView {
                viewport: Viewport {
                    col_offset: scrolled_back(self.viewport.col_offset, 1),
                    ..self.viewport
                },
                ..self
            },
            Input::End => AppView {
                viewport: Viewport {
                    col_offset: scrolled_on(self.viewport.col_offset, 1),
                    ..self.viewport
                },
                ..self
            },
            Input::PageUp => AppView {
                viewport: Viewport {
                    row_offset: scrolled_back(self.viewport.row_offset, PAGE_STEP),
                    ..self.viewport
                },
                ..self
            },
            Input::PageDown => AppView {
                viewport: Viewport {
                    row_offset: scrolled_on(self.viewport.row_offset, PAGE_STEP),
                    ..self.viewport
                },
                ..self
            },
            Input::Submit => self.parse_command(),
            Input::Delete => AppView { editor: self.editor.delete_before_cursor(), ..self },
            Input::Insert(c) => AppView { editor: self.editor.insert(c), ..self },
            Input::Ignored => self,
        }
    }

    /// What one event asks of the caller.
    pub open spec fn action(self, input: Input) -> ActionView {
        match input {
            Input::Quit => ActionView::Quit,
            Input::Submit => self.parse_action(),
            _ => ActionView::Continue,
        }
    }

    /// The name of the next table: one letter.
    pub open spec fn table_name(self) -> Seq<char> {
        seq![self.next_table_name as char]
    }

    /// The table that picking `path`, a file called `name`, leads to, if the
    /// extension of the path tells its format.
    pub open spec fn new_table(self, path: Seq<char>, name: Seq<char>) -> Option<NewTableView> {
        match file_format_spec(path) {
            None => None,
            Some(format) => Some(
                NewTableView {
                    table_name: self.table_name(),
                    file_name: path,
                    format,
                    label: name + " - "@ + self.table_name(),
                },
            ),
        }
    }

    /// The session after the user was asked for a file: unchanged where a table is
    /// about to be registered, else with a message on display.
    pub open spec fn create_table(self, picked: Option<(Seq<char>, Seq<char>)>) -> AppView {
        match picked {
            None => self.send_message("could not open file"@),
            Some((path, name)) => if self.new_table(path, name) is Some {
                self
            } else {
                self.send_message("could not parse file format"@)
            },
        }
    }

    /// The session after the query engine answered the registration of `table`:
    /// with the table's label in the title and the next letter in line, or with
    /// the engine's error on display.
    pub open spec fn table_registered(self, table: NewTableView, outcome: Result<(), Seq<char>>)
        -> AppView {
        match outcome {
            Ok(_) => AppView {
                file_names: self.file_names.push(table.label),
                next_table_name: (self.next_table_name + 1) as u8,
                ..self.send_message("created table "@ + table.table_name)
            },
            Err(e) => self.send_message(e),
        }
    }

    /// The frame that shows the session in a results panel of the given size.
    pub open spec fn render(self, panel_width: int, panel_height: int) -> SceneView {
        let at_end = self.editor.cursor >= self.editor.text.len();
        SceneView {
            title: join_spec(self.file_names, ", "@),
            grid: self.table.window(
                self.viewport.row_offset as int,
                self.viewport.col_offset as int,
                visible_rows_spec(panel_height),
                visible_cols_spec(panel_width),
            ),
            columns: visible_cols_spec(panel_width),
            before_cursor: self.editor.text.take(self.editor.cursor),
            at_cursor: if at_end {
                None
            } else {
                Some(self.editor.text[self.editor.cursor])
            },
            after_cursor: if at_end {
                Seq::empty()
            } else {
                self.editor.text.skip(self.editor.cursor + 1)
            },
        }
    }
}

/// The state of a session: the command line and its history, the table on display
/// and the place of the viewport on it, and the tables registered so far.
pub struct App {
    file_names: Vec<String>,
    command_history: History,
    editor: LineEditor,
    table: DisplayTable,
    scroll_offset: Viewport,
    next_table_name: u8,
}

impl View for App {
    type V = AppView;

    closed spec fn view(&self) -> AppView {
        AppView {
            file_names: strings_view(self.file_names@),
            history: self.command_history@,
            editor: self.editor@,
            table: self.table@,
            viewport: self.scroll_offset,
            next_table_name: self.next_table_name,
        }
    }
}

impl App {
    /// A fresh session.
    pub fn new() -> (app: App)
        ensures
            app@ == AppView::new(),
    {
        let app = App {
            file_names: Vec::new(),
            command_history: History::new(),
            editor: LineEditor::new(),
            table: DisplayTable::empty(),
            scroll_offset: Viewport::new(),
            next_table_name: 97,
        };
        assert(app@.file_names =~= Seq::empty());
        app
    }

    /// The table on display.
    pub fn table(&self) -> (t: &DisplayTable)
        ensures
            t@ == self@.table,
    {
        &self.table
    }

    /// The command line.
    pub fn editor(&self) -> (e: &LineEditor)
        ensures
            e@ == self@.editor,
    {
        &self.editor
    }

    /// The history of commands.
    pub fn history(&self) -> (h: &History)
        ensures
            h@ == self@.history,
    {
        &self.command_history
    }

    /// The place of the viewport on the table.
    pub fn viewport(&self) -> (v: Viewport)
        ensures
            v == self@.viewport,
    {
        self.scroll_offset
    }

    /// The labels of the registered tables, oldest first.
    pub fn file_names(&self) -> (names: &Vec<String>)
        ensures
            strings_view(names@) == self@.file_names,
    {
        &self.file_names
    }

    /// The code of the letter that names the next table.
    pub fn next_table_name(&self) -> (n: u8)
        ensures
            n == self@.next_table_name,
    {
        self.next_table_name
    }

    /// Does to the command line what the history asked for.
    fn recall(&mut self, recall: Recall)
        ensures
            final(self)@ == (AppView { editor: old(self)@.recalled(recall@), ..old(self)@ }),
    {
        match recall {
            Recall::Keep => {},
            Recall::Clear => self.editor.clear(),
            Recall::Load(text) => self.editor.load(&text),
        }
    }

    /// Brings the command at the index of the history to the command line, the
    /// cursor behind it, and moves the index on towards older commands. With an
    /// empty history nothing happens.
    pub fn get_next_command(&mut self)
        ensures
            final(self)@ == old(self)@.get_next_command(),
    {
        let recall = self.command_history.next();
        self.recall(recall);
    }

    /// Moves the index of the history back towards newer commands and brings the
    /// command there to the command line, the cursor behind it. With the index on
    /// the most recent command the line is emptied. With an empty history nothing
    /// happens.
    pub fn get_prev_command(&mut self)
        ensures
            final(self)@ == old(self)@.get_prev_command(),
    {
        let recall = self.command_history.prev();
        self.recall(recall);
    }

    /// Moves the cursor one place to the right, but not past the last character.
    pub fn move_cursor_right(&mut self)
        ensures
            final(self)@ == (AppView { editor: old(self)@.editor.move_right(), ..old(self)@ }),
    {
        self.editor.move_right();
    }

    /// Moves the cursor one place to the left, unless it is at the start.
    pub fn move_cursor_left(&mut self)
        ensures
            final(self)@ == (AppView { editor: old(self)@.editor.move_left(), ..old(self)@ }),
    {
        self.editor.move_left();
    }

    /// Puts `table` on display, the viewport on its top left corner and the cursor
    /// at the start of the command line.
    fn show(&mut self, table: DisplayTable)
        ensures
            final(self)@ == old(self)@.show(table@),
    {
        self.table = table;
        self.scroll_offset.reset();
        self.editor.move_home();
    }

    /// Shows `text` in place of a result: the table loses its column names and
    /// holds one row with `text` as its one cell. The viewport goes to the top left
    /// corner and the cursor to the start of the command line.
    pub fn send_message(&mut self, text: String)
        ensures
            final(self)@ == old(self)@.send_message(text@),
            final(self)@.table == TableView::diagnostic(text@),
            final(self)@.table.headers.len() == 0,
            final(self)@.table.rows.len() == 1,
            final(self)@.table.rows[0] == seq![text@],
    {
        self.show(DisplayTable::diagnostic(text));
    }

    /// Submits the command line. A blank line does nothing. A reserved word is
    /// acted on: `c` asks the caller to let the user pick a file, `cls` empties the
    /// display. Any other line is a query and is handed back for the caller to run,
    /// as it was typed but for the white space at its end. Whatever the line asked
    /// for, it goes to the front of the history and leaves an empty line behind,
    /// and the walk through the history and the viewport start afresh.
    pub fn parse_command(&mut self) -> (action: Action)
        ensures
            final(self)@ == old(self)@.parse_command(),
            action@ == old(self)@.parse_action(),
    {
        let text = self.editor.chars();
        let command = classify_chars(&text);
        match command {
            Command::Blank => Action::Continue,
            Command::CreateTable => {
                self.submitted(&text);
                Action::PickFile
            },
            Command::Clear => {
                self.table = DisplayTable::empty();
                self.submitted(&text);
                Action::Continue
            },
            Command::Query(query) => {
                self.submitted(&text);
                Action::Execute(query)
            },
        }
    }

    /// Books a submitted line: into the history, off the command line.
    fn submitted(&mut self, text: &Vec<char>)
        ensures
            final(self)@ == (AppView {
                history: old(self)@.history.record(text@).reset(),
                editor: EditorView::empty(),
                viewport: Viewport { row_offset: 0, col_offset: 0 },
                ..old(self)@
            }),
    {
        self.command_history.record(text);
        self.command_history.reset();
        self.editor.clear();
        self.scroll_offset.reset();
    }

    /// Handles one event and says what the caller has to do before the next frame.
    /// The keys are bound as follows: up and down walk the history, left and right
    /// move the cursor, page up and page down scroll by three rows, home and end
    /// scroll by one column, enter submits the line, backspace deletes before the
    /// cursor, and a character is typed at the cursor.
    pub fn run(&mut self, input: Input) -> (action: Action)
        ensures
            final(self)@ == old(self)@.run(input),
            action@ == old(self)@.action(input),
    {
        match input {
            Input::Quit => Action::Quit,
            Input::Up => {
                self.get_next_command();
                Action::Continue
            },
            Input::Down => {
                self.get_prev_command();
                Action::Continue
            },
            Input::Left => {
                self.move_cursor_left();
                Action::Continue
            },
            Input::Right => {
                self.move_cursor_right();
                Action::Continue
            },
            Input::Home => {
                self.scroll_offset.scroll_left(1);
                Action::Continue
            },
            Input::End => {
                self.scroll_offset.scroll_right(1);
                Action::Continue
            },
            Input::PageUp => {
                self.scroll_offset.scroll_up(PAGE_STEP);
                Action::Continue
            },
            Input::PageDown => {
                self.scroll_offset.scroll_down(PAGE_STEP);
                Action::Continue
            },
            Input::Submit => self.parse_command(),
            Input::Delete => {
                self.editor.delete_before_cursor();
                Action::Continue
            },
            Input::Insert(c) => {
                self.editor.insert(c);
                Action::Continue
            },
            Input::Ignored => Action::Continue,
        }
    }

    /// Takes the user's answer to the file dialog. Without a file the display says
    /// that none could be opened. With a file whose extension is neither `csv` nor
    /// `json` the display says that its format is unknown. Else the table to
    /// register comes back, named by the next letter in line; the session changes
    /// only once the caller reports the registration to [`App::table_registered`].
    pub fn create_table(&mut self, picked: Option<PickedFile>) -> (table: Option<NewTable>)
        ensures
            final(self)@ == old(self)@.create_table(
                match picked {
                    Some(file) => Some((file.path@, file.name@)),
                    None => None,
                },
            ),
            match picked {
                Some(file) => match table {
                    Some(t) => old(self)@.new_table(file.path@, file.name@) == Some(t@),
                    None => old(self)@.new_table(file.path@, file.name@).is_none(),
                },
                None => table.is_none(),
            },
    {
        match picked {
            None => {
                self.send_message("could not open file".to_owned());
                None
            },
            Some(file) => {
                let mut table_name = String::new();
                push_char(&mut table_name, self.next_table_name as char);
                assert(table_name@ =~= self@.table_name());
                let mut label = file.name;
                label.append(" - ");
                label.append(table_name.as_str());
                match add_file_to_ctx(table_name, file.path) {
                    Ok(registration) => Some(NewTable { registration, label }),
                    Err(e) => {
                        self.send_message(e.message());
                        None
                    },
                }
            },
        }
    }

    /// Takes the query engine's answer to the registration of `table`. On success
    /// the label of the table joins the title, the display confirms the new table
    /// and the next letter comes in line. On failure the display shows the
    /// engine's error and nothing else changes.
    pub fn table_registered(&mut self, table: NewTable, outcome: Result<(), String>)
        requires
            outcome is Ok ==> old(self)@.next_table_name < u8::MAX,
        ensures
            final(self)@ == old(self)@.table_registered(
                table@,
                match outcome {
                    Ok(_) => Ok(()),
                    Err(e) => Err(e@),
                },
            ),
    {
        match outcome {
            Ok(_) => {
                let mut message = "created table ".to_owned();
                message.append(table.registration.table_name.as_str());
                self.send_message(message);
                let ghost names = self.file_names@;
                self.file_names.push(table.label);
                assert(strings_view(self.file_names@) =~= strings_view(names).push(table.label@));
                self.next_table_name = self.next_table_name + 1;
            },
            Err(e) => self.send_message(e),
        }
    }

    /// Shows the result of a query: the names of the fields of `schema` as column
    /// names over the rows of `batches`, in the order in which the engine gave
    /// them. Where a value has no text, the display shows the error instead; where
    /// a row has not one cell for each column name, it says so. The viewport goes
    /// to the top left corner and the cursor to the start of the command line.
    pub fn show_batches(&mut self, schema: &Schema, batches: &Vec<Batch>)
        ensures
            final(self)@ == old(self)@.show(result_table(schema_names(*schema), batches@)),
    {
        let headers = Self::schema_headers(schema);
        match Self::read_batches(batches) {
            Err(e) => self.send_message(e),
            Ok(rows) => match DisplayTable::new(headers, rows) {
                Some(table) => self.show(table),
                None => self.send_message("result rows do not match the result columns".to_owned()),
            },
        }
    }

    /// The frame that shows the session in a results panel `panel_width` cells wide
    /// and `panel_height` lines high: the title, the part of the table under the
    /// viewport, and the command line split at the cursor.
    pub fn render(&self, panel_width: u16, panel_height: u16) -> (scene: Scene)
        ensures
            scene@ == self@.render(panel_width as int, panel_height as int),
            scene@.grid.wf(),
    {
        let rows = visible_rows(panel_height);
        let columns = visible_cols(panel_width);
        let grid = self.table.window(
            self.scroll_offset.row_offset,
            self.scroll_offset.col_offset,
            rows,
            columns,
        );
        let after = self.editor.after_cursor();
        Scene {
            title: join(&self.file_names, ", "),
            grid,
            columns,
            before_cursor: string_of(self.editor.before_cursor()),
            at_cursor: self.editor.at_cursor(),
            after_cursor: string_of(&after),
        }
    }
}

/// Submitting a line that is not blank puts the line in front of the history and
/// starts the walk through it afresh. Submitting a blank line changes nothing, the
/// history and the walk through it included.
pub proof fn lemma_submission_is_recorded(app: AppView)
    ensures
        !is_blank(app.editor.text) ==> {
            &&& app.parse_command().history.entries == seq![app.editor.text] + app.history.entries
            &&& app.parse_command().history.entries[0] == app.editor.text
            &&& app.parse_command().history.index == 0
            &&& app.parse_command().editor == EditorView::empty()
            &&& app.parse_command().viewport == (Viewport { row_offset: 0, col_offset: 0 })
        },
        is_blank(app.editor.text) ==> {
            &&& app.parse_command() == app
            &&& app.parse_action() == ActionView::Continue
        },
{
    lemma_blank_iff_trim_empty(app.editor.text);
}

/// Only a line that is neither blank nor a reserved word reaches the query engine,
/// and it does so as it was typed, without the white space at its end. The words
/// `c` and `cls`, in any case of their letters and with any white space around
/// them, never do.
pub proof fn lemma_only_queries_are_executed(app: AppView)
    ensures
        ({
            let word = trim_spec(app.editor.text);
            let reserved = eq_ignore_ascii_case(word, create_token()) || eq_ignore_ascii_case(
                word,
                clear_token(),
            );
            if is_blank(app.editor.text) || reserved {
                !(app.parse_action() is Execute)
            } else {
                app.parse_action() == ActionView::Execute(trim_end_spec(app.editor.text))
            }
        }),
        app.parse_action() is Execute <==> app.action(Input::Submit) is Execute,
        forall|input: Input| input != Input::Submit ==> !(#[trigger] app.action(input) is Execute),
{
    lemma_blank_iff_trim_empty(app.editor.text);
}

/// The word that clears the display leaves an empty table and touches neither the
/// title nor the letter of the next table.
pub proof fn lemma_clear_empties_the_table(app: AppView)
    requires
        classify_spec(app.editor.text) is Clear,
    ensures
        app.parse_command().table == TableView::empty(),
        app.parse_command().file_names == app.file_names,
        app.parse_command().next_table_name == app.next_table_name,
        app.parse_action() == ActionView::Continue,
{
}

} // verus!
