//! The commands submitted so far, most recent first, and the place that the
//! history keys have reached among them.

use std::collections::VecDeque;
use vstd::prelude::*;
use crate::text::{copy_chars, is_blank, lemma_blank_iff_trim_empty, trimmed_end};

verus! {

/// What walking the history asks of the command line.
pub enum Recall {
    /// Leave the line as it is.
    Keep,
    /// Empty the line.
    Clear,
    /// Put this command on the line, the cursor behind it.
    Load(Vec<char>),
}

/// A [`Recall`] with the command as a sequence of characters.
pub enum RecallView {
    Keep,
    Clear,
    Load(Seq<char>),
}

impl View for Recall {
    type V = RecallView;

    open spec fn view(&self) -> RecallView {
        match self {
            Recall::Keep => RecallView::Keep,
            Recall::Clear => RecallView::Clear,
            Recall::Load(text) => RecallView::Load(text@),
        }
    }
}

/// What a [`History`] holds: the commands, most recent first, and the index of the
/// command that the next step towards older commands brings back.
pub struct HistoryView {
    pub entries: Seq<Seq<char>>,
    pub index: int,
}

impl HistoryView {
    /// The index points at a command, or is 0 where there is none.
    pub open spec fn wf(self) -> bool {
        0 <= self.index && (self.index < self.entries.len() || self.index == 0)
    }

    /// No command yet.
    pub open spec fn empty() -> HistoryView {
        HistoryView { entries: Seq::empty(), index: 0 }
    }

    /// `command` put in front, unless it is blank.
    pub open spec fn record(self, command: Seq<char>) -> HistoryView {
        if is_blank(command) {
            self
        } else {
            HistoryView { entries: seq![command] + self.entries, ..self }
        }
    }

    /// The walk back at its start.
    pub open spec fn reset(self) -> HistoryView {
        HistoryView { index: 0, ..self }
    }

    /// What a step towards older commands brings to the line.
    pub open spec fn next_recall(self) -> RecallView {
        if self.entries.len() == 0 {
            RecallView::Keep
        } else {
            RecallView::Load(self.entries[self.index])
        }
    }

    /// The history after a step towards older commands: the index moves on by one
    /// and stays on the oldest command.
    pub open spec fn next(self) -> HistoryView {
        if self.entries.len() == 0 {
            self
        } else if self.index + 1 <= self.entries.len() - 1 {
            HistoryView { index: self.index + 1, ..self }
        } else {
            HistoryView { index: self.entries.len() - 1, ..self }
        }
    }

    /// What a step towards newer commands brings to the line.
    pub open spec fn prev_recall(self) -> RecallView {
        if self.entries.len() == 0 {
            RecallView::Keep
        } else if self.index > 0 {
            RecallView::Load(self.entries[self.index - 1])
        } else {
            RecallView::Clear
        }
    }

    /// The history after a step towards newer commands.
    pub open spec fn prev(self) -> HistoryView {
        if self.entries.len() > 0 && self.index > 0 {
            HistoryView { index: self.index - 1, ..self }
        } else {
            self
        }
    }

    /// The history after `steps` steps towards older commands.
    pub open spec fn next_times(self, steps: nat) -> HistoryView
        decreases steps,
    {
        if steps == 0 {
            self
        } else {
            self.next_times((steps - 1) as nat).next()
        }
    }
}

/// The log of submitted commands with the position of the walk through it.
pub struct History {
    entries: VecDeque<Vec<char>>,
    index: usize,
}

impl View for History {
    type V = HistoryView;

    closed spec fn view(&self) -> HistoryView {
        HistoryView {
            entries: self.entries@.map_values(|e: Vec<char>| e@),
            index: if self.entries@.len() == 0 {
                0
            } else if self.index < self.entries@.len() {
                self.index as int
            } else {
                self.entries@.len() - 1
            },
        }
    }
}

impl History {
    /// A history without commands.
    pub fn new() -> (h: History)
        ensures
            h@ == HistoryView::empty(),
    {
        let h = History { entries: VecDeque::new(), index: 0 };
        assert(h@.entries =~= Seq::empty());
        h
    }

    /// Number of commands held.
    pub fn len(&self) -> (n: usize)
        ensures
            n == self@.entries.len(),
    {
        self.entries.len()
    }

    /// Index of the command that the next step towards older commands brings back.
    pub fn traversal_index(&self) -> (i: usize)
        ensures
            i == self@.index,
            self@.wf(),
    {
        let n = self.entries.len();
        if n == 0 {
            0
        } else if self.index < n {
            self.index
        } else {
            n - 1
        }
    }

    /// The command at `i`, counted from the most recent one.
    pub fn entry(&self, i: usize) -> (e: Option<Vec<char>>)
        ensures
            match e {
                Some(e) => i < self@.entries.len() && e@ == self@.entries[i as int],
                None => i >= self@.entries.len(),
            },
    {
        if i < self.entries.len() {
            Some(copy_chars(&self.entries[i]))
        } else {
            None
        }
    }

    /// Puts `command` in front of the others, unless it holds nothing but white
    /// space. The place of the walk stays.
    pub fn record(&mut self, command: &Vec<char>)
        ensures
            final(self)@ == old(self)@.record(command@),
            final(self)@.wf(),
    {
        proof {
            lemma_blank_iff_trim_empty(command@);
        }
        if trimmed_end(command) != 0 {
            self.index = self.traversal_index();
            self.entries.push_front(copy_chars(command));
            assert(self@.entries =~= seq![command@] + old(self)@.entries);
        }
    }

    /// Puts the walk back to its start.
    pub fn reset(&mut self)
        ensures
            final(self)@ == old(self)@.reset(),
            final(self)@.wf(),
    {
        self.index = 0;
    }

    /// A step towards older commands. It hands out the command at the index and
    /// moves the index on by one, but not past the oldest command. With no command
    /// held it does nothing.
    pub fn next(&mut self) -> (r: Recall)
        ensures
            r@ == old(self)@.next_recall(),
            final(self)@ == old(self)@.next(),
            final(self)@.wf(),
    {
        let n = self.entries.len();
        if n == 0 {
            return Recall::Keep;
        }
        let at = self.traversal_index();
        let text = copy_chars(&self.entries[at]);
        self.index = if at + 1 <= n - 1 { at + 1 } else { n - 1 };
        Recall::Load(text)
    }

    /// A step towards newer commands. With the index behind the first command it
    /// moves the index back by one and hands out the command there; with the index
    /// on the first command it asks for an empty line. With no command held it does
    /// nothing.
    pub fn prev(&mut self) -> (r: Recall)
        ensures
            r@ == old(self)@.prev_recall(),
            final(self)@ == old(self)@.prev(),
            final(self)@.wf(),
    {
        let n = self.entries.len();
        if n == 0 {
            return Recall::Keep;
        }
        let at = self.traversal_index();
        if at > 0 {
            self.index = at - 1;
            Recall::Load(copy_chars(&self.entries[at - 1]))
        } else {
            self.index = 0;
            Recall::Clear
        }
    }
}

/// The index of a history points at a command or is 0, whatever was done to it.
pub proof fn lemma_index_within_history(history: History)
    ensures
        history@.wf(),
{
}

/// Every step keeps the index of a history within its commands.
pub proof fn lemma_steps_keep_index_within_history(h: HistoryView, command: Seq<char>)
    requires
        h.wf(),
    ensures
        HistoryView::empty().wf(),
        h.record(command).wf(),
        h.reset().wf(),
        h.next().wf(),
        h.prev().wf(),
{
}

/// From a fresh walk, the steps towards older commands bring the commands back
/// most recent first: step number `k`, counted from 0, brings back the command at
/// `k`, and once the oldest is reached every further step brings that one. No step
/// reads behind the oldest command.
pub proof fn lemma_walk_is_most_recent_first(h: HistoryView, k: nat)
    requires
        h.wf(),
        h.index == 0,
        h.entries.len() > 0,
    ensures
        ({
            let last = h.entries.len() - 1;
            let reached = h.next_times(k);
            &&& reached.entries == h.entries
            &&& reached.index == if k <= last { k as int } else { last }
            &&& 0 <= reached.index <= last
            &&& reached.next_recall() == RecallView::Load(h.entries[reached.index])
        }),
    decreases k,
{
    if k > 0 {
        lemma_walk_is_most_recent_first(h, (k - 1) as nat);
    }
}

/// A step towards older commands followed by one towards newer commands brings back
/// the command that the first step brought, as long as the oldest was not reached.
pub proof fn lemma_next_then_prev(h: HistoryView)
    requires
        h.wf(),
        h.index + 1 < h.entries.len(),
    ensures
        h.next().prev() == h,
        h.next().prev_recall() == h.next_recall(),
{
}

} // verus!
