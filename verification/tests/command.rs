use query_console::command::{
    add_file_to_ctx, classify, classify_chars, file_format, Command, FileFormat, FileFormatError,
};
use query_console::text::{
    chars_of, copy_chars, is_whitespace, join, range_eq, range_eq_ignore_ascii_case, string_of,
    to_ascii_lower, trimmed_end, trimmed_start,
};

fn query(text: &str) -> String {
    match classify(text) {
        Command::Query(q) => q,
        other => panic!("{:?} is no query", other),
    }
}

#[test]
fn create_word_in_any_case() {
    assert!(matches!(classify("c"), Command::CreateTable));
    assert!(matches!(classify("C"), Command::CreateTable));
    assert!(matches!(classify("  c\t"), Command::CreateTable));
    assert!(matches!(classify("\nC \u{a0}"), Command::CreateTable));
}

#[test]
fn clear_word_in_any_case() {
    assert!(matches!(classify("cls"), Command::Clear));
    assert!(matches!(classify("CLS"), Command::Clear));
    assert!(matches!(classify("cLs"), Command::Clear));
    assert!(matches!(classify("   Cls   "), Command::Clear));
}

#[test]
fn blank_lines_ask_for_nothing() {
    assert!(matches!(classify(""), Command::Blank));
    assert!(matches!(classify(" "), Command::Blank));
    assert!(matches!(classify(" \t\r\n"), Command::Blank));
    assert!(matches!(classify("\u{2003}\u{3000}"), Command::Blank));
}

#[test]
fn other_text_is_a_query_without_trailing_space() {
    assert_eq!(query("SELECT * FROM a LIMIT 1"), "SELECT * FROM a LIMIT 1");
    assert_eq!(query("select 1  \n"), "select 1");
    assert_eq!(query("  select 1  "), "  select 1");
    assert_eq!(query("SELEC * FROM a"), "SELEC * FROM a");
}

#[test]
fn near_misses_of_reserved_words_are_queries() {
    assert_eq!(query("clear"), "clear");
    assert_eq!(query("cl"), "cl");
    assert_eq!(query("cc"), "cc");
    assert_eq!(query("c ls"), "c ls");
    assert_eq!(query("clss "), "clss");
    assert_eq!(query("ç"), "ç");
    assert_eq!(query("\u{212a}"), "\u{212a}");
}

#[test]
fn classify_chars_agrees_with_classify() {
    let text: Vec<char> = " Cls ".chars().collect();
    assert!(matches!(classify_chars(&text), Command::Clear));
    let text: Vec<char> = "x ".chars().collect();
    assert!(matches!(classify_chars(&text), Command::Query(q) if q == "x"));
}

#[test]
fn file_format_reads_the_extension() {
    assert_eq!(file_format("data.csv"), Ok(FileFormat::Csv));
    assert_eq!(file_format("/tmp/some dir/rows.json"), Ok(FileFormat::Json));
    assert_eq!(file_format("a.b.csv"), Ok(FileFormat::Csv));
    assert_eq!(file_format(".json"), Ok(FileFormat::Json));
}

#[test]
fn file_format_refuses_other_extensions() {
    assert_eq!(file_format("data.txt"), Err(FileFormatError));
    assert_eq!(file_format("data.CSV"), Err(FileFormatError));
    assert_eq!(file_format("data.csv "), Err(FileFormatError));
    assert_eq!(file_format("data.csvx"), Err(FileFormatError));
    assert_eq!(file_format("data.cs"), Err(FileFormatError));
    assert_eq!(file_format("data."), Err(FileFormatError));
    assert_eq!(file_format("dir.csv/data"), Err(FileFormatError));
}

#[test]
fn file_format_refuses_a_missing_extension() {
    assert_eq!(file_format("data"), Err(FileFormatError));
    assert_eq!(file_format("csv"), Err(FileFormatError));
    assert_eq!(file_format("json"), Err(FileFormatError));
    assert_eq!(file_format(""), Err(FileFormatError));
}

#[test]
fn file_format_error_has_a_message() {
    assert_eq!(FileFormatError.message(), "could not parse file format");
}

#[test]
fn add_file_to_ctx_prepares_a_registration() {
    let r = add_file_to_ctx("a".to_string(), "/data/people.csv".to_string()).unwrap();
    assert_eq!(r.table_name, "a");
    assert_eq!(r.file_name, "/data/people.csv");
    assert_eq!(r.format, FileFormat::Csv);
    let r = add_file_to_ctx("b".to_string(), "log.json".to_string()).unwrap();
    assert_eq!(r.table_name, "b");
    assert_eq!(r.file_name, "log.json");
    assert_eq!(r.format, FileFormat::Json);
}

#[test]
fn add_file_to_ctx_refuses_unknown_formats() {
    assert!(matches!(add_file_to_ctx("a".to_string(), "notes.txt".to_string()), Err(FileFormatError)));
    assert!(matches!(add_file_to_ctx("a".to_string(), "notes".to_string()), Err(FileFormatError)));
}

#[test]
fn white_space_is_what_unicode_says() {
    for code in 0..=0x10FFFFu32 {
        if let Some(c) = char::from_u32(code) {
            assert_eq!(is_whitespace(c), c.is_whitespace(), "U+{:04X}", code);
        }
    }
}

#[test]
fn ascii_lower_is_what_std_says() {
    for code in 0..=0x10FFFFu32 {
        if let Some(c) = char::from_u32(code) {
            assert_eq!(to_ascii_lower(c), c.to_ascii_lowercase(), "U+{:04X}", code);
        }
    }
}

#[test]
fn trimming_agrees_with_std() {
    for text in ["", " ", "a", " a", "a ", "  a b  ", "\t\na\u{a0}", "\u{3000}x\u{2028}", "   "] {
        let chars: Vec<char> = text.chars().collect();
        let end = trimmed_end(&chars);
        let start = trimmed_start(&chars, end);
        let kept: String = chars[..end].iter().collect();
        let word: String = chars[start..end].iter().collect();
        assert_eq!(kept, text.trim_end());
        assert_eq!(word, text.trim());
    }
}

#[test]
fn ranges_are_compared_in_place() {
    let s: Vec<char> = "xCLSy".chars().collect();
    let token: Vec<char> = "cls".chars().collect();
    assert!(range_eq_ignore_ascii_case(&s, 1, 4, &token));
    assert!(!range_eq_ignore_ascii_case(&s, 0, 3, &token));
    assert!(!range_eq_ignore_ascii_case(&s, 1, 3, &token));
    assert!(!range_eq(&s, 1, 4, &token));
    let s: Vec<char> = "xclsy".chars().collect();
    assert!(range_eq(&s, 1, 4, &token));
    assert!(!range_eq(&s, 1, 5, &token));
    assert!(range_eq(&s, 2, 2, &vec![]));
}

#[test]
fn strings_and_characters_convert_both_ways() {
    assert_eq!(chars_of("aé√"), vec!['a', 'é', '√']);
    assert_eq!(chars_of(""), Vec::<char>::new());
    assert_eq!(string_of(&vec!['a', 'é', '√']), "aé√");
    assert_eq!(string_of(&vec![]), "");
    assert_eq!(copy_chars(&vec!['x', 'y']), vec!['x', 'y']);
}

#[test]
fn join_puts_the_separator_between() {
    assert_eq!(join(&vec![], ", "), "");
    assert_eq!(join(&vec!["a".to_string()], ", "), "a");
    assert_eq!(join(&vec!["a".to_string(), "b".to_string(), "c".to_string()], ", "), "a, b, c");
    assert_eq!(join(&vec!["".to_string(), "".to_string()], "-"), "-");
}
