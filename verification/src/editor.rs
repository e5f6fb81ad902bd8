//! The command line: a buffer of characters and a cursor into it.
//!
//! The buffer is kept as the characters before the cursor and, in reverse order, the
//! characters from the cursor on. The cursor is the length of the first part, so it
//! cannot leave the text whatever is done to the editor.

use vstd::prelude::*;
use crate::text::{chars_of, copy_chars, string_of};

verus! {

/// What a [`LineEditor`] holds: its characters and the position of its cursor.
pub struct EditorView {
    pub text: Seq<char>,
    pub cursor: int,
}

impl EditorView {
    /// The cursor lies between the first character and the position after the last.
    pub open spec fn wf(self) -> bool {
        0 <= self.cursor <= self.text.len()
    }

    /// The empty line with the cursor at its start.
    pub open spec fn empty() -> EditorView {
        EditorView { text: Seq::empty(), cursor: 0 }
    }

    /// `c` placed at the cursor, the cursor moved behind it.
    pub open spec fn insert(self, c: char) -> EditorView {
        EditorView { text: self.text.insert(self.cursor, c), cursor: self.cursor + 1 }
    }

    /// The character before the cursor taken out, if there is one.
    pub open spec fn delete_before_cursor(self) -> EditorView {
        if self.cursor == 0 {
            self
        } else {
            EditorView { text: self.text.remove(self.cursor - 1), cursor: self.cursor - 1 }
        }
    }

    /// The cursor one place to the left, stopping at the start.
    pub open spec fn move_left(self) -> EditorView {
        EditorView { cursor: if self.cursor >= 1 { self.cursor - 1 } else { 0 }, ..self }
    }

    /// The cursor one place to the right, stopping on the last character.
    pub open spec fn move_right(self) -> EditorView {
        let bound = if self.text.len() >= 1 { self.text.len() - 1 } else { 0 };
        EditorView {
            cursor: if self.cursor + 1 <= bound { self.cursor + 1 } else { bound },
            ..self
        }
    }

    /// The cursor at the start, the text as it is.
    pub open spec fn move_home(self) -> EditorView {
        EditorView { cursor: 0, ..self }
    }

    /// `text` as the whole line, the cursor behind its last character.
    pub open spec fn loaded(text: Seq<char>) -> EditorView {
        EditorView { text, cursor: text.len() as int }
    }
}

/// A line of text under edit.
pub struct LineEditor {
    before: Vec<char>,
    after: Vec<char>,
}

impl View for LineEditor {
    type V = EditorView;

    closed spec fn view(&self) -> EditorView {
        EditorView {
            text: self.before@ + self.after@.reverse(),
            cursor: self.before@.len() as int,
        }
    }
}

impl LineEditor {
    /// An empty line.
    pub fn new() -> (e: LineEditor)
        ensures
            e@ == EditorView::empty(),
    {
        let e = LineEditor { before: Vec::new(), after: Vec::new() };
        assert(e@.text =~= Seq::<char>::empty());
        e
    }

    /// Position of the cursor, counted in characters from the start.
    pub fn cursor(&self) -> (c: usize)
        ensures
            c == self@.cursor,
            c <= self@.text.len(),
    {
        self.before.len()
    }

    /// Number of characters in the line, where it fits in `usize`.
    pub fn len(&self) -> (n: Option<usize>)
        ensures
            match n {
                Some(n) => n == self@.text.len(),
                None => self@.text.len() > usize::MAX,
            },
    {
        self.before.len().checked_add(self.after.len())
    }

    /// Whether the line holds no character.
    pub fn is_empty(&self) -> (b: bool)
        ensures
            b == (self@.text.len() == 0),
    {
        self.before.len() == 0 && self.after.len() == 0
    }

    /// The characters before the cursor.
    pub fn before_cursor(&self) -> (t: &Vec<char>)
        ensures
            t@ == self@.text.take(self@.cursor),
    {
        assert(self@.text.take(self@.cursor) =~= self.before@);
        &self.before
    }

    /// The character under the cursor, or `None` with the cursor behind the text.
    pub fn at_cursor(&self) -> (c: Option<char>)
        ensures
            c == if self@.cursor < self@.text.len() {
                Some(self@.text[self@.cursor])
            } else {
                None::<char>
            },
    {
        let n = self.after.len();
        if n > 0 {
            Some(self.after[n - 1])
        } else {
            None
        }
    }

    /// The characters behind the one under the cursor.
    pub fn after_cursor(&self) -> (t: Vec<char>)
        ensures
            t@ == if self@.cursor < self@.text.len() {
                self@.text.skip(self@.cursor + 1)
            } else {
                Seq::<char>::empty()
            },
    {
        let mut t: Vec<char> = Vec::new();
        let n = self.after.len();
        if n > 0 {
            let mut i: usize = n - 1;
            while i > 0
                invariant
                    n == self.after.len(),
                    0 <= i < n,
                    t@ == self.after@.reverse().subrange(1, n - i),
                decreases i,
            {
                i -= 1;
                t.push(self.after[i]);
                assert(t@ =~= self.after@.reverse().subrange(1, n - i));
            }
            assert(t@ =~= self@.text.skip(self@.cursor + 1));
        }
        t
    }

    /// All characters of the line.
    pub fn chars(&self) -> (t: Vec<char>)
        ensures
            t@ == self@.text,
    {
        let mut t = copy_chars(&self.before);
        let mut i: usize = self.after.len();
        while i > 0
            invariant
                i <= self.after.len(),
                t@ == self.before@ + self.after@.reverse().take(self.after.len() - i),
            decreases i,
        {
            i -= 1;
            t.push(self.after[i]);
            assert(t@ =~= self.before@ + self.after@.reverse().take(self.after.len() - i));
        }
        assert(t@ =~= self@.text);
        t
    }

    /// The line as a string.
    pub fn text(&self) -> (s: String)
        ensures
            s@ == self@.text,
    {
        let chars = self.chars();
        string_of(&chars)
    }

    /// Puts `c` at the cursor and moves the cursor behind it.
    pub fn insert(&mut self, c: char)
        ensures
            final(self)@ == old(self)@.insert(c),
            final(self)@.text.len() == old(self)@.text.len() + 1,
            final(self)@.cursor == old(self)@.cursor + 1,
            final(self)@.wf(),
    {
        self.before.push(c);
        assert(self@.text =~= old(self)@.text.insert(old(self)@.cursor, c));
    }

    /// Removes the character before the cursor and moves the cursor onto its place.
    /// With the cursor at the start nothing changes.
    pub fn delete_before_cursor(&mut self)
        ensures
            final(self)@ == old(self)@.delete_before_cursor(),
            old(self)@.cursor > 0 ==> final(self)@.text.len() == old(self)@.text.len() - 1
                && final(self)@.cursor == old(self)@.cursor - 1,
            old(self)@.cursor == 0 ==> final(self)@ == old(self)@,
            final(self)@.wf(),
    {
        if self.before.len() > 0 {
            self.before.pop();
            assert(self@.text =~= old(self)@.text.remove(old(self)@.cursor - 1));
        }
    }

    /// Moves the cursor one place to the left, unless it is at the start.
    pub fn move_left(&mut self)
        ensures
            final(self)@ == old(self)@.move_left(),
            final(self)@.wf(),
    {
        if self.before.len() > 0 {
            let c = self.before.pop().unwrap();
            self.after.push(c);
            assert(self@.text =~= old(self)@.text);
        }
    }

    /// Moves the cursor one place to the right, but never past the last character:
    /// a cursor behind the last character comes back onto it.
    pub fn move_right(&mut self)
        ensures
            final(self)@ == old(self)@.move_right(),
            final(self)@.wf(),
    {
        if self.after.len() >= 2 {
            let c = self.after.pop().unwrap();
            self.before.push(c);
            assert(self@.text =~= old(self)@.text);
        } else if self.after.len() == 0 && self.before.len() > 0 {
            let c = self.before.pop().unwrap();
            self.after.push(c);
            assert(self@.text =~= old(self)@.text);
        }
    }

    /// Moves the cursor to the start of the line.
    pub fn move_home(&mut self)
        ensures
            final(self)@ == old(self)@.move_home(),
            final(self)@.wf(),
    {
        while self.before.len() > 0
            invariant
                self@.text == old(self)@.text,
            decreases self.before.len(),
        {
            let ghost text = self@.text;
            let c = self.before.pop().unwrap();
            self.after.push(c);
            assert(self@.text =~= text);
        }
    }

    /// Empties the line and puts the cursor at its start.
    pub fn clear(&mut self)
        ensures
            final(self)@ == EditorView::empty(),
    {
        self.before.clear();
        self.after.clear();
        assert(self@.text =~= Seq::<char>::empty());
    }

    /// Replaces the line by `text` and puts the cursor behind its last character.
    pub fn load(&mut self, text: &Vec<char>)
        ensures
            final(self)@ == EditorView::loaded(text@),
            final(self)@.wf(),
    {
        self.before = copy_chars(text);
        self.after.clear();
        assert(self@.text =~= text@);
    }

    /// Replaces the line by the characters of `text`, the cursor behind the last.
    pub fn load_str(&mut self, text: &str)
        ensures
            final(self)@ == EditorView::loaded(text@),
            final(self)@.wf(),
    {
        self.before = chars_of(text);
        self.after.clear();
        assert(self@.text =~= text@);
    }
}

/// The cursor of an editor lies within its text, whatever was done to it.
pub proof fn lemma_cursor_within_text(editor: LineEditor)
    ensures
        editor@.wf(),
{
}

/// Every editing step keeps the cursor within the text.
pub proof fn lemma_steps_keep_cursor_within_text(e: EditorView, c: char)
    requires
        e.wf(),
    ensures
        EditorView::empty().wf(),
        e.insert(c).wf(),
        e.delete_before_cursor().wf(),
        e.move_left().wf(),
        e.move_right().wf(),
        e.move_home().wf(),
        EditorView::loaded(e.text).wf(),
{
}

/// Inserting a character and deleting before the cursor gives the line back.
pub proof fn lemma_insert_then_delete(e: EditorView, c: char)
    requires
        e.wf(),
    ensures
        e.insert(c).delete_before_cursor() == e,
{
    assert(e.text.insert(e.cursor, c).remove(e.cursor) =~= e.text);
}

} // verus!
