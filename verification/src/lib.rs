//! A parser for plain-text task lists in the todo.txt convention: one task per
//! line, with an optional completion marker, an optional priority, up to two
//! dates, and free-form tail text carrying context tags (`@`), project tags
//! (`+`) and `key:value` pairs.
//!
//! The grammar is specified in `grammar` as functions over `Seq<char>`; the
//! executable engine in `engine` is proved to return exactly what those
//! functions describe, line by line.

use vstd::prelude::*;

mod engine;
pub mod grammar;
pub mod laws;

verus! {

/// A calendar date as written on a line: the three digit groups, stored
/// exactly as parsed. No calendar validation is applied (month 13 is kept).
#[derive(Debug, Clone, Copy, PartialEq, Eq)]
pub struct Date {
    pub year: u16,
    pub month: u8,
    pub day: u8,
}

/// One `key:value` annotation found in the tail text of an entry.
#[derive(Debug, Clone, PartialEq, Eq)]
pub struct PairTag {
    pub key: String,
    pub value: String,
}

/// Which of the two positional date fields a diagnostic refers to.
#[derive(Debug, Clone, Copy, PartialEq, Eq)]
pub enum DateKind {
    Creation,
    Completed,
}

/// The closed set of recoverable anomalies a line can exhibit. A warning is
/// advisory: it never prevents an entry from being produced.
#[derive(Debug, Clone, PartialEq, Eq)]
pub enum ParseWarningKind {
    LowerCaseCompleteFlag,
    ManyCompleteFlags,
    MalformedDate(DateKind),
    TooManyDates,
    OrphanContextTag,
    ContextTagPrefixInTag,
    OrphanProjectTag,
    ProjectTagPrefixInTag,
    OrphanPairTagKey,
}

/// A diagnostic attached to the entry that produced it. `text_span` is the
/// half-open range of character positions in the original line that the
/// warning is about; `char` optionally points at one offending character.
#[derive(Debug)]
pub struct ParseWarning {
    pub text_span: (u32, u32),
    pub char: Option<u32>,
    pub kind: ParseWarningKind,
}

/// One parsed entry. `text` is the tail of the line after the fixed-order
/// prefix fields (completion flag, priority, dates) are consumed, kept
/// verbatim; tag and pair extraction annotates it without rewriting it.
pub struct Todo {
    pub is_completed: bool,
    pub priority: Option<u8>,
    pub date_completed: Option<Date>,
    pub date_creation: Option<Date>,
    pub text: String,
    pub context_tags: Vec<String>,
    pub project_tags: Vec<String>,
    pub pair_tags: Vec<PairTag>,
    pub warnings: Vec<ParseWarning>,
}

/// The result of a parse: one slot per input line, in input order.
pub type TodoLines = Vec<Option<Todo>>;

impl View for PairTag {
    type V = grammar::PairView;

    open spec fn view(&self) -> grammar::PairView {
        grammar::PairView { key: self.key@, value: self.value@ }
    }
}

impl DeepView for PairTag {
    type V = grammar::PairView;

    open spec fn deep_view(&self) -> grammar::PairView {
        self.view()
    }
}

impl View for Todo {
    type V = grammar::TodoView;

    open spec fn view(&self) -> grammar::TodoView {
        grammar::TodoView {
            is_completed: self.is_completed,
            priority: self.priority,
            date_completed: self.date_completed,
            date_creation: self.date_creation,
            text: self.text@,
            context_tags: self.context_tags.deep_view(),
            project_tags: self.project_tags.deep_view(),
            pair_tags: self.pair_tags.deep_view(),
            warnings: self.warnings@,
        }
    }
}

/// Parses a whole buffer: splits it into lines exactly as `str::lines` does,
/// parses each line independently, and returns one entry per line in input
/// order. The grammar is total, so every slot is filled.
pub fn parse(text: &str) -> (todos: TodoLines)
    ensures
        todos@.len() == grammar::split_lines(text@).len(),
        forall|i: int|
            0 <= i < todos@.len() ==> (#[trigger] todos@[i]) is Some && todos@[i]->0@
                == grammar::line_view(grammar::split_lines(text@)[i]),
{
    engine::parse_text(text)
}

/// Parses the contents of one todo.txt-style buffer; a convenience alias for
/// `parse` kept for callers that hold a whole file as a string.
pub fn parse_todo_str(text: &str) -> (todos: TodoLines)
    ensures
        todos@.len() == grammar::split_lines(text@).len(),
        forall|i: int|
            0 <= i < todos@.len() ==> (#[trigger] todos@[i]) is Some && todos@[i]->0@
                == grammar::line_view(grammar::split_lines(text@)[i]),
{
    parse(text)
}

} // verus!
