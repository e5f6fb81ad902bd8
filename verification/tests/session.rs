use std::sync::Arc;

use arrow::array::{ArrayRef, Int32Array, StringArray};
use arrow::datatypes::{DataType, Field, Schema};
use arrow::record_batch::RecordBatch;
use query_console::app::{Action, App, Input, NewTable, PickedFile};
use query_console::command::FileFormat;
use query_console::engine::Batch;
use query_console::viewport::Viewport;

fn strings(cells: &[&str]) -> Vec<String> {
    cells.iter().map(|c| c.to_string()).collect()
}

fn type_text(app: &mut App, text: &str) {
    for c in text.chars() {
        assert!(matches!(app.run(Input::Insert(c)), Action::Continue));
    }
}

fn submit(app: &mut App, text: &str) -> Action {
    type_text(app, text);
    app.run(Input::Submit)
}

fn history_of(app: &App) -> Vec<String> {
    (0..app.history().len())
        .map(|i| app.history().entry(i).unwrap().into_iter().collect())
        .collect()
}

fn csv_schema() -> Schema {
    Schema::new(vec![
        Field::new("id", DataType::Int32, true),
        Field::new("city", DataType::Utf8, true),
    ])
}

fn csv_batch(ids: Vec<i32>, cities: Vec<&str>) -> Batch {
    let columns: Vec<ArrayRef> =
        vec![Arc::new(Int32Array::from(ids)), Arc::new(StringArray::from(cities))];
    Batch { inner: RecordBatch::try_new(Arc::new(csv_schema()), columns).unwrap() }
}

fn picked(path: &str, name: &str) -> Option<PickedFile> {
    Some(PickedFile { path: path.to_string(), name: name.to_string() })
}

fn register(app: &mut App, path: &str, name: &str) -> NewTable {
    assert!(matches!(submit(app, "c"), Action::PickFile));
    app.create_table(picked(path, name)).unwrap()
}

#[test]
fn new_session_is_empty() {
    let app = App::new();
    assert!(app.table().headers().is_empty());
    assert!(app.table().rows().is_empty());
    assert_eq!(app.editor().text(), "");
    assert_eq!(app.editor().cursor(), 0);
    assert_eq!(app.history().len(), 0);
    assert_eq!(app.history().traversal_index(), 0);
    assert_eq!(app.viewport(), Viewport { row_offset: 0, col_offset: 0 });
    assert!(app.file_names().is_empty());
    assert_eq!(app.next_table_name(), b'a');
}

#[test]
fn typing_edits_the_command_line() {
    let mut app = App::new();
    type_text(&mut app, "selct");
    let _ = app.run(Input::Left);
    let _ = app.run(Input::Left);
    let _ = app.run(Input::Insert('e'));
    assert_eq!(app.editor().text(), "select");
    assert_eq!(app.editor().cursor(), 4);
    let _ = app.run(Input::Delete);
    assert_eq!(app.editor().text(), "selct");
    let _ = app.run(Input::Right);
    assert_eq!(app.editor().cursor(), 4);
    let _ = app.run(Input::Right);
    assert_eq!(app.editor().cursor(), 4);
    app.move_cursor_left();
    assert_eq!(app.editor().cursor(), 3);
    app.move_cursor_right();
    assert_eq!(app.editor().cursor(), 4);
}

#[test]
fn quit_and_ignored_change_nothing() {
    let mut app = App::new();
    type_text(&mut app, "abc");
    assert!(matches!(app.run(Input::Ignored), Action::Continue));
    assert!(matches!(app.run(Input::Quit), Action::Quit));
    assert_eq!(app.editor().text(), "abc");
    assert_eq!(app.editor().cursor(), 3);
    assert_eq!(app.history().len(), 0);
}

#[test]
fn paging_keys_scroll_rows_by_three() {
    let mut app = App::new();
    let _ = app.run(Input::PageUp);
    assert_eq!(app.viewport(), Viewport { row_offset: 0, col_offset: 0 });
    let _ = app.run(Input::PageDown);
    let _ = app.run(Input::PageDown);
    assert_eq!(app.viewport(), Viewport { row_offset: 6, col_offset: 0 });
    let _ = app.run(Input::PageUp);
    assert_eq!(app.viewport(), Viewport { row_offset: 3, col_offset: 0 });
    let _ = app.run(Input::PageUp);
    let _ = app.run(Input::PageUp);
    assert_eq!(app.viewport(), Viewport { row_offset: 0, col_offset: 0 });
}

#[test]
fn home_and_end_scroll_columns_by_one() {
    let mut app = App::new();
    let _ = app.run(Input::Home);
    assert_eq!(app.viewport(), Viewport { row_offset: 0, col_offset: 0 });
    let _ = app.run(Input::End);
    let _ = app.run(Input::End);
    assert_eq!(app.viewport(), Viewport { row_offset: 0, col_offset: 2 });
    let _ = app.run(Input::Home);
    assert_eq!(app.viewport(), Viewport { row_offset: 0, col_offset: 1 });
}

#[test]
fn submitting_a_query_hands_it_to_the_caller() {
    let mut app = App::new();
    let _ = app.run(Input::PageDown);
    let _ = app.run(Input::End);
    match submit(&mut app, "  SELECT * FROM a LIMIT 1  ") {
        Action::Execute(query) => assert_eq!(query, "  SELECT * FROM a LIMIT 1"),
        other => panic!("{:?}", other),
    }
    assert_eq!(history_of(&app), strings(&["  SELECT * FROM a LIMIT 1  "]));
    assert_eq!(app.history().traversal_index(), 0);
    assert_eq!(app.editor().text(), "");
    assert_eq!(app.editor().cursor(), 0);
    assert_eq!(app.viewport(), Viewport { row_offset: 0, col_offset: 0 });
}

#[test]
fn parse_command_is_what_enter_does() {
    let mut app = App::new();
    type_text(&mut app, "select 2 ");
    assert!(matches!(app.parse_command(), Action::Execute(q) if q == "select 2"));
    assert_eq!(history_of(&app), strings(&["select 2 "]));
    assert_eq!(app.editor().text(), "");
}

#[test]
fn submitting_pushes_to_the_front_and_resets_the_walk() {
    let mut app = App::new();
    let _ = submit(&mut app, "one");
    let _ = submit(&mut app, "two");
    let _ = app.run(Input::Up);
    let _ = app.run(Input::Up);
    assert_eq!(app.history().traversal_index(), 1);
    assert_eq!(app.editor().text(), "one");
    let _ = app.run(Input::Submit);
    assert_eq!(history_of(&app), strings(&["one", "two", "one"]));
    assert_eq!(app.history().traversal_index(), 0);
}

#[test]
fn submitting_a_blank_line_changes_nothing() {
    let mut app = App::new();
    let _ = submit(&mut app, "one");
    app.send_message("shown".to_string());
    let _ = app.run(Input::PageDown);
    type_text(&mut app, "  \t ");
    assert!(matches!(app.run(Input::Submit), Action::Continue));
    assert_eq!(history_of(&app), strings(&["one"]));
    assert_eq!(app.history().traversal_index(), 0);
    assert_eq!(app.editor().text(), "  \t ");
    assert_eq!(app.editor().cursor(), 4);
    assert_eq!(app.viewport(), Viewport { row_offset: 3, col_offset: 0 });
    assert_eq!(app.table().rows(), &vec![strings(&["shown"])]);
    let mut empty = App::new();
    assert!(matches!(empty.run(Input::Submit), Action::Continue));
    assert_eq!(empty.history().len(), 0);
}

#[test]
fn blank_submission_keeps_the_place_of_the_walk() {
    let mut app = App::new();
    let _ = submit(&mut app, "one");
    let _ = submit(&mut app, "two");
    let _ = app.run(Input::Up);
    assert_eq!(app.history().traversal_index(), 1);
    for _ in 0..3 {
        let _ = app.run(Input::Delete);
    }
    assert_eq!(app.editor().text(), "");
    assert!(matches!(app.run(Input::Submit), Action::Continue));
    assert_eq!(app.history().traversal_index(), 1);
    assert_eq!(history_of(&app), strings(&["two", "one"]));
}

#[test]
fn reserved_words_never_reach_the_engine() {
    for word in ["c", "C", " c ", "cls", "CLS", "Cls", "  cLS\t"] {
        let mut app = App::new();
        assert!(!matches!(submit(&mut app, word), Action::Execute(_)), "{:?}", word);
        assert_eq!(history_of(&app), vec![word.to_string()]);
    }
}

#[test]
fn history_keys_walk_most_recent_first() {
    let mut app = App::new();
    let _ = submit(&mut app, "one");
    let _ = submit(&mut app, "two");
    let _ = submit(&mut app, "three");
    let _ = app.run(Input::Up);
    assert_eq!(app.editor().text(), "three");
    assert_eq!(app.editor().cursor(), 5);
    let _ = app.run(Input::Up);
    assert_eq!(app.editor().text(), "two");
    let _ = app.run(Input::Up);
    assert_eq!(app.editor().text(), "one");
    let _ = app.run(Input::Up);
    assert_eq!(app.editor().text(), "one");
    assert_eq!(app.history().traversal_index(), 2);
    let _ = app.run(Input::Down);
    assert_eq!(app.editor().text(), "two");
    assert_eq!(app.editor().cursor(), 3);
    let _ = app.run(Input::Down);
    assert_eq!(app.editor().text(), "three");
    let _ = app.run(Input::Down);
    assert_eq!(app.editor().text(), "");
    assert_eq!(app.editor().cursor(), 0);
    app.get_next_command();
    assert_eq!(app.editor().text(), "three");
    assert_eq!(app.history().traversal_index(), 1);
    app.get_prev_command();
    assert_eq!(app.editor().text(), "three");
    assert_eq!(app.history().traversal_index(), 0);
    app.get_prev_command();
    assert_eq!(app.editor().text(), "");
}

#[test]
fn history_previous_with_empty_history_keeps_the_line() {
    let mut app = App::new();
    let _ = app.run(Input::Down);
    assert_eq!(app.editor().text(), "");
    assert_eq!(app.editor().cursor(), 0);
    type_text(&mut app, "sel");
    let _ = app.run(Input::Down);
    assert_eq!(app.editor().text(), "sel");
    assert_eq!(app.editor().cursor(), 3);
    let _ = app.run(Input::Up);
    assert_eq!(app.editor().text(), "sel");
    assert_eq!(app.history().traversal_index(), 0);
}

#[test]
fn query_result_is_shown_with_its_column_names() {
    let mut app = App::new();
    let table = register(&mut app, "/data/data.csv", "data.csv");
    app.table_registered(table, Ok(()));
    assert!(matches!(
        submit(&mut app, "SELECT * FROM a LIMIT 1"),
        Action::Execute(q) if q == "SELECT * FROM a LIMIT 1"
    ));
    app.show_batches(&csv_schema(), &vec![csv_batch(vec![7], vec!["Oslo"])]);
    assert_eq!(app.table().headers(), &strings(&["id", "city"]));
    assert_eq!(app.table().rows(), &vec![strings(&["7", "Oslo"])]);
    assert_eq!(app.viewport(), Viewport { row_offset: 0, col_offset: 0 });
}

#[test]
fn failed_query_shows_one_diagnostic_row() {
    let mut app = App::new();
    app.show_batches(&csv_schema(), &vec![csv_batch(vec![7], vec!["Oslo"])]);
    assert!(matches!(submit(&mut app, "SELEC * FROM a"), Action::Execute(q) if q == "SELEC * FROM a"));
    let error = "SQL error: ParserError(\"Expected: an SQL statement, found: SELEC\")";
    app.send_message(error.to_string());
    assert!(app.table().headers().is_empty());
    assert_eq!(app.table().rows().len(), 1);
    assert_eq!(app.table().rows()[0], strings(&[error]));
    assert!(app.table().rows()[0][0].contains("ParserError"));
}

#[test]
fn cls_empties_the_display_and_keeps_the_tables() {
    let mut app = App::new();
    let table = register(&mut app, "/data/data.csv", "data.csv");
    app.table_registered(table, Ok(()));
    app.show_batches(&csv_schema(), &vec![csv_batch(vec![1, 2], vec!["a", "b"])]);
    assert_eq!(app.table().rows().len(), 2);
    assert!(matches!(submit(&mut app, "cls"), Action::Continue));
    assert!(app.table().headers().is_empty());
    assert!(app.table().rows().is_empty());
    assert_eq!(app.file_names(), &strings(&["data.csv - a"]));
    assert_eq!(app.next_table_name(), b'b');
    assert_eq!(app.editor().text(), "");
    assert_eq!(history_of(&app), strings(&["cls", "c"]));
}

#[test]
fn send_message_resets_viewport_and_cursor() {
    let mut app = App::new();
    type_text(&mut app, "abc");
    let _ = app.run(Input::PageDown);
    let _ = app.run(Input::End);
    app.send_message("hello".to_string());
    assert!(app.table().headers().is_empty());
    assert_eq!(app.table().rows(), &vec![strings(&["hello"])]);
    assert_eq!(app.viewport(), Viewport { row_offset: 0, col_offset: 0 });
    assert_eq!(app.editor().text(), "abc");
    assert_eq!(app.editor().cursor(), 0);
}

#[test]
fn cancelled_dialog_is_reported() {
    let mut app = App::new();
    assert!(matches!(submit(&mut app, "c"), Action::PickFile));
    assert!(app.create_table(None).is_none());
    assert!(app.table().headers().is_empty());
    assert_eq!(app.table().rows(), &vec![strings(&["could not open file"])]);
    assert!(app.file_names().is_empty());
    assert_eq!(app.next_table_name(), b'a');
}

#[test]
fn unknown_file_format_is_reported() {
    let mut app = App::new();
    assert!(matches!(submit(&mut app, "C"), Action::PickFile));
    assert!(app.create_table(picked("/data/notes.txt", "notes.txt")).is_none());
    assert_eq!(app.table().rows(), &vec![strings(&["could not parse file format"])]);
    assert!(app.create_table(picked("/data/notes", "notes")).is_none());
    assert_eq!(app.table().rows(), &vec![strings(&["could not parse file format"])]);
    assert!(app.file_names().is_empty());
    assert_eq!(app.next_table_name(), b'a');
}

#[test]
fn picked_file_becomes_a_table_to_register() {
    let mut app = App::new();
    app.send_message("before".to_string());
    let table = register(&mut app, "/data/people.csv", "people.csv");
    assert_eq!(table.registration.table_name, "a");
    assert_eq!(table.registration.file_name, "/data/people.csv");
    assert_eq!(table.registration.format, FileFormat::Csv);
    assert_eq!(table.label, "people.csv - a");
    assert_eq!(app.table().rows(), &vec![strings(&["before"])]);
    assert!(app.file_names().is_empty());
    assert_eq!(app.next_table_name(), b'a');
}

#[test]
fn registered_tables_are_named_by_letters_in_turn() {
    let mut app = App::new();
    let table = register(&mut app, "/data/people.csv", "people.csv");
    app.table_registered(table, Ok(()));
    assert_eq!(app.table().rows(), &vec![strings(&["created table a"])]);
    assert!(app.table().headers().is_empty());
    assert_eq!(app.file_names(), &strings(&["people.csv - a"]));
    assert_eq!(app.next_table_name(), b'b');
    let table = register(&mut app, "/data/log.json", "log.json");
    assert_eq!(table.registration.table_name, "b");
    assert_eq!(table.registration.format, FileFormat::Json);
    assert_eq!(table.label, "log.json - b");
    app.table_registered(table, Ok(()));
    assert_eq!(app.table().rows(), &vec![strings(&["created table b"])]);
    assert_eq!(app.file_names(), &strings(&["people.csv - a", "log.json - b"]));
    assert_eq!(app.next_table_name(), b'c');
}

#[test]
fn failed_registration_is_reported_and_keeps_the_letter() {
    let mut app = App::new();
    let table = register(&mut app, "/data/people.csv", "people.csv");
    app.table_registered(table, Err("file not found".to_string()));
    assert!(app.table().headers().is_empty());
    assert_eq!(app.table().rows(), &vec![strings(&["file not found"])]);
    assert!(app.file_names().is_empty());
    assert_eq!(app.next_table_name(), b'a');
    let table = register(&mut app, "/data/people.csv", "people.csv");
    assert_eq!(table.registration.table_name, "a");
}

#[test]
fn table_names_go_on_past_z() {
    let mut app = App::new();
    for _ in 0..26 {
        let table = register(&mut app, "x.csv", "x.csv");
        app.table_registered(table, Ok(()));
    }
    assert_eq!(app.next_table_name(), b'{');
    let table = register(&mut app, "x.csv", "x.csv");
    assert_eq!(table.registration.table_name, "{");
}

#[test]
fn rows_of_all_batches_are_shown_in_order() {
    let mut app = App::new();
    let _ = app.run(Input::PageDown);
    type_text(&mut app, "abc");
    let batches = vec![
        csv_batch(vec![1, 2], vec!["a", "b"]),
        csv_batch(vec![], vec![]),
        csv_batch(vec![3, 4, 5], vec!["c", "d", "e"]),
    ];
    app.show_batches(&csv_schema(), &batches);
    assert_eq!(app.table().headers().len(), 2);
    assert_eq!(app.table().rows().len(), 5);
    assert_eq!(
        app.table().rows(),
        &vec![
            strings(&["1", "a"]),
            strings(&["2", "b"]),
            strings(&["3", "c"]),
            strings(&["4", "d"]),
            strings(&["5", "e"]),
        ]
    );
    assert_eq!(app.viewport(), Viewport { row_offset: 0, col_offset: 0 });
    assert_eq!(app.editor().text(), "abc");
    assert_eq!(app.editor().cursor(), 0);
}

#[test]
fn result_without_rows_shows_the_column_names() {
    let mut app = App::new();
    app.show_batches(&csv_schema(), &vec![]);
    assert_eq!(app.table().headers(), &strings(&["id", "city"]));
    assert!(app.table().rows().is_empty());
}

#[test]
fn rows_that_do_not_fit_the_schema_are_reported() {
    let mut app = App::new();
    let schema = Schema::new(vec![Field::new("only", DataType::Int32, true)]);
    app.show_batches(&schema, &vec![csv_batch(vec![1], vec!["a"])]);
    assert!(app.table().headers().is_empty());
    assert_eq!(
        app.table().rows(),
        &vec![strings(&["result rows do not match the result columns"])]
    );
}

#[test]
fn render_cuts_the_window_under_the_viewport() {
    let mut app = App::new();
    let ids: Vec<i32> = (0..20).collect();
    let cities: Vec<String> = (0..20).map(|i| format!("c{}", i)).collect();
    let batch = csv_batch(ids, cities.iter().map(|c| c.as_str()).collect());
    app.show_batches(&csv_schema(), &vec![batch]);
    let scene = app.render(48, 8);
    assert_eq!(scene.columns, 2);
    assert_eq!(scene.grid.headers(), &strings(&["id", "city"]));
    assert_eq!(scene.grid.rows().len(), 5);
    assert_eq!(scene.grid.rows()[0], strings(&["0", "c0"]));
    assert_eq!(scene.grid.rows()[4], strings(&["4", "c4"]));
    let _ = app.run(Input::PageDown);
    let _ = app.run(Input::End);
    let scene = app.render(30, 5);
    assert_eq!(scene.columns, 1);
    assert_eq!(scene.grid.headers(), &strings(&["city"]));
    assert_eq!(scene.grid.rows(), &vec![strings(&["c3"]), strings(&["c4"])]);
    for _ in 0..6 {
        let _ = app.run(Input::PageDown);
    }
    let scene = app.render(30, 5);
    assert!(scene.grid.rows().is_empty());
    let _ = app.run(Input::PageUp);
    let scene = app.render(30, 50);
    assert_eq!(scene.grid.rows(), &vec![strings(&["c18"]), strings(&["c19"])]);
}

#[test]
fn render_shows_at_least_one_cell() {
    let mut app = App::new();
    app.show_batches(&csv_schema(), &vec![csv_batch(vec![1, 2], vec!["a", "b"])]);
    let scene = app.render(0, 0);
    assert_eq!(scene.columns, 1);
    assert_eq!(scene.grid.headers(), &strings(&["id"]));
    assert_eq!(scene.grid.rows(), &vec![strings(&["1"])]);
}

#[test]
fn render_titles_the_panel_with_the_tables() {
    let mut app = App::new();
    assert_eq!(app.render(80, 24).title, "");
    let table = register(&mut app, "/data/people.csv", "people.csv");
    app.table_registered(table, Ok(()));
    assert_eq!(app.render(80, 24).title, "people.csv - a");
    let table = register(&mut app, "/data/log.json", "log.json");
    app.table_registered(table, Ok(()));
    assert_eq!(app.render(80, 24).title, "people.csv - a, log.json - b");
}

#[test]
fn render_splits_the_line_at_the_cursor() {
    let mut app = App::new();
    let scene = app.render(80, 24);
    assert_eq!(scene.before_cursor, "");
    assert_eq!(scene.at_cursor, None);
    assert_eq!(scene.after_cursor, "");
    type_text(&mut app, "select");
    let scene = app.render(80, 24);
    assert_eq!(scene.before_cursor, "select");
    assert_eq!(scene.at_cursor, None);
    assert_eq!(scene.after_cursor, "");
    let _ = app.run(Input::Left);
    let _ = app.run(Input::Left);
    let _ = app.run(Input::Left);
    let scene = app.render(80, 24);
    assert_eq!(scene.before_cursor, "sel");
    assert_eq!(scene.at_cursor, Some('e'));
    assert_eq!(scene.after_cursor, "ct");
    let _ = app.run(Input::Right);
    let _ = app.run(Input::Right);
    let scene = app.render(80, 24);
    assert_eq!(scene.before_cursor, "selec");
    assert_eq!(scene.at_cursor, Some('t'));
    assert_eq!(scene.after_cursor, "");
}

#[test]
fn render_shows_a_message_in_the_grid() {
    let mut app = App::new();
    app.send_message("could not open file".to_string());
    let scene = app.render(80, 24);
    assert!(scene.grid.headers().is_empty());
    assert_eq!(scene.grid.rows(), &vec![strings(&["could not open file"])]);
}
