//! What a submitted line asks for, and how a file is to be registered.

use vstd::prelude::*;
use crate::text::{
    chars_of, eq_ignore_ascii_case, range_eq, range_eq_ignore_ascii_case, string_of, trim_end_spec,
    trim_spec, trimmed_end, trimmed_start,
};

verus! {

/// The word that asks for a new table.
pub open spec fn create_token() -> Seq<char> {
    seq!['c']
}

/// The word that empties the display.
pub open spec fn clear_token() -> Seq<char> {
    seq!['c', 'l', 's']
}

/// What a submitted line asks for.
#[derive(Debug)]
pub enum Command {
    /// Nothing: the line holds only white space.
    Blank,
    /// Pick a file and register it as a new table.
    CreateTable,
    /// Empty the display.
    Clear,
    /// Hand this text to the query engine.
    Query(String),
}

/// A [`Command`] with the query as a sequence of characters.
pub enum CommandView {
    Blank,
    CreateTable,
    Clear,
    Query(Seq<char>),
}

impl View for Command {
    type V = CommandView;

    open spec fn view(&self) -> CommandView {
        match self {
            Command::Blank => CommandView::Blank,
            Command::CreateTable => CommandView::CreateTable,
            Command::Clear => CommandView::Clear,
            Command::Query(q) => CommandView::Query(q@),
        }
    }
}

/// What the line `text` asks for. The reserved words count with white space around
/// them and in any case of their letters. Any other line that is not blank is a
/// query: the line as it was typed, without the white space at its end.
pub open spec fn classify_spec(text: Seq<char>) -> CommandView {
    let word = trim_spec(text);
    if word.len() == 0 {
        CommandView::Blank
    } else if eq_ignore_ascii_case(word, create_token()) {
        CommandView::CreateTable
    } else if eq_ignore_ascii_case(word, clear_token()) {
        CommandView::Clear
    } else {
        CommandView::Query(trim_end_spec(text))
    }
}

/// Finds what the line `text` asks for.
pub fn classify_chars(text: &Vec<char>) -> (c: Command)
    ensures
        c@ == classify_spec(text@),
{
    let end = trimmed_end(text);
    let start = trimmed_start(text, end);
    if start == end {
        return Command::Blank;
    }
    let create: Vec<char> = vec!['c'];
    let clear: Vec<char> = vec!['c', 'l', 's'];
    assert(create@ =~= create_token());
    assert(clear@ =~= clear_token());
    if range_eq_ignore_ascii_case(text, start, end, &create) {
        Command::CreateTable
    } else if range_eq_ignore_ascii_case(text, start, end, &clear) {
        Command::Clear
    } else {
        let mut kept: Vec<char> = Vec::new();
        let mut i: usize = 0;
        while i < end
            invariant
                i <= end <= text@.len(),
                kept@ == text@.take(i as int),
            decreases end - i,
        {
            kept.push(text[i]);
            i += 1;
            assert(kept@ =~= text@.take(i as int));
        }
        Command::Query(string_of(&kept))
    }
}

/// Finds what the line `text` asks for.
pub fn classify(text: &str) -> (c: Command)
    ensures
        c@ == classify_spec(text@),
{
    let chars = chars_of(text);
    classify_chars(&chars)
}

/// A reserved word is never a query, whatever the case of its letters and the white
/// space around it, and a blank line is none either. Every other line is a query
/// whose text is the line without the white space at its end.
pub proof fn lemma_reserved_words_are_no_query(text: Seq<char>)
    ensures
        ({
            let word = trim_spec(text);
            let reserved = eq_ignore_ascii_case(word, create_token()) || eq_ignore_ascii_case(
                word,
                clear_token(),
            );
            if word.len() == 0 || reserved {
                !(classify_spec(text) is Query)
            } else {
                classify_spec(text) == CommandView::Query(trim_end_spec(text))
            }
        }),
{
}

/// The formats in which a file can be registered as a table.
#[derive(Clone, Copy, Debug, PartialEq, Eq, Structural)]
pub enum FileFormat {
    /// Comma-separated values, one record a line.
    Csv,
    /// JSON, one object a line.
    Json,
}

/// The name of a file does not end in a known extension.
#[derive(Clone, Copy, Debug, PartialEq, Eq, Structural)]
pub struct FileFormatError;

impl FileFormatError {
    /// The text that the display shows for this error.
    pub fn message(&self) -> (m: String)
        ensures
            m@ == "could not parse file format"@,
    {
        "could not parse file format".to_owned()
    }
}

/// The extension of a file name: what follows its last dot. A name without a dot
/// has none.
pub open spec fn extension_spec(name: Seq<char>) -> Option<Seq<char>>
    decreases name.len(),
{
    if name.len() == 0 {
        None
    } else if name.last() == '.' {
        Some(Seq::empty())
    } else {
        match extension_spec(name.drop_last()) {
            None => None,
            Some(e) => Some(e.push(name.last())),
        }
    }
}

/// The extension that marks comma-separated values.
pub open spec fn csv_extension() -> Seq<char> {
    seq!['c', 's', 'v']
}

/// The extension that marks JSON.
pub open spec fn json_extension() -> Seq<char> {
    seq!['j', 's', 'o', 'n']
}

/// The format that the name of a file stands for, if any.
pub open spec fn file_format_spec(name: Seq<char>) -> Option<FileFormat> {
    match extension_spec(name) {
        None => None,
        Some(e) => if e == csv_extension() {
            Some(FileFormat::Csv)
        } else if e == json_extension() {
            Some(FileFormat::Json)
        } else {
            None
        },
    }
}

/// A name without a dot has no extension. Otherwise the extension is the end of the
/// name behind a dot, and holds no dot itself.
pub proof fn lemma_extension(name: Seq<char>)
    ensures
        match extension_spec(name) {
            None => forall|i: int| 0 <= i < name.len() ==> #[trigger] name[i] != '.',
            Some(e) => {
                &&& e.len() < name.len()
                &&& name[name.len() - e.len() - 1] == '.'
                &&& e == name.skip(name.len() - e.len())
                &&& forall|i: int| name.len() - e.len() <= i < name.len() ==> #[trigger] name[i]
                    != '.'
            },
        },
    decreases name.len(),
{
    if name.len() == 0 {
    } else if name.last() == '.' {
        assert(name.skip(name.len() as int) =~= Seq::<char>::empty());
    } else {
        let front = name.drop_last();
        lemma_extension(front);
        match extension_spec(front) {
            None => {
                assert forall|i: int| 0 <= i < name.len() implies #[trigger] name[i] != '.' by {
                    if i < front.len() {
                        assert(front[i] == name[i]);
                    }
                }
            },
            Some(e) => {
                let longer = e.push(name.last());
                assert(front[front.len() - e.len() - 1] == name[name.len() - longer.len() - 1]);
                assert(longer =~= name.skip(name.len() - longer.len()));
                assert forall|i: int| name.len() - longer.len() <= i < name.len() implies #[trigger] name[i]
                    != '.' by {
                    if i < front.len() {
                        assert(front[i] == name[i]);
                    }
                }
            },
        }
    }
}

/// The format that the extension of `name` stands for: `csv` or `json`, written in
/// small letters. Any other extension, and a name without one, is an error.
pub fn file_format(name: &str) -> (f: Result<FileFormat, FileFormatError>)
    ensures
        match f {
            Ok(format) => file_format_spec(name@) == Some(format),
            Err(_) => file_format_spec(name@).is_none(),
        },
{
    let chars = chars_of(name);
    let n = chars.len();
    let mut dot: usize = n;
    while dot > 0 && chars[dot - 1] != '.'
        invariant
            dot <= n,
            n == chars@.len(),
            forall|i: int| dot <= i < n ==> #[trigger] chars@[i] != '.',
        decreases dot,
    {
        dot -= 1;
    }
    proof {
        lemma_extension(chars@);
    }
    if dot == 0 {
        return Err(FileFormatError);
    }
    assert(extension_spec(chars@) == Some(chars@.subrange(dot as int, n as int))) by {
        let e = extension_spec(chars@).unwrap();
        let p = n - e.len() - 1;
        if p < dot - 1 {
            assert(chars@[dot - 1] != '.');
        }
        if p > dot - 1 {
            assert(chars@[p] != '.');
        }
        assert(e =~= chars@.subrange(dot as int, n as int));
    }
    let csv: Vec<char> = vec!['c', 's', 'v'];
    let json: Vec<char> = vec!['j', 's', 'o', 'n'];
    assert(csv@ =~= csv_extension());
    assert(json@ =~= json_extension());
    if range_eq(&chars, dot, n, &csv) {
        Ok(FileFormat::Csv)
    } else if range_eq(&chars, dot, n, &json) {
        Ok(FileFormat::Json)
    } else {
        Err(FileFormatError)
    }
}

/// What the query engine is asked to do for a new table.
#[derive(Debug)]
pub struct Registration {
    /// The name under which queries reach the table.
    pub table_name: String,
    /// Where the file lies.
    pub file_name: String,
    /// How the file is to be read.
    pub format: FileFormat,
}

/// Prepares the registration of the file `file_name` as the table `table_name`:
/// the format is read off the extension of the file name. A name whose extension
/// is neither `csv` nor `json` is refused.
pub fn add_file_to_ctx(table_name: String, file_name: String) -> (r: Result<
    Registration,
    FileFormatError,
>)
    ensures
        match file_format_spec(file_name@) {
            Some(format) => r == Ok::<Registration, FileFormatError>(
                Registration { table_name, file_name, format },
            ),
            None => r == Err::<Registration, FileFormatError>(FileFormatError),
        },
{
    match file_format(file_name.as_str()) {
        Ok(format) => Ok(Registration { table_name, file_name, format }),
        Err(e) => Err(e),
    }
}

} // verus!
