//! Formatting of the two (or three) text regions of the status display:
//! the code being typed, the operator feedback, and an optional hint line
//! once the entry has grown past a configured threshold. Pure formatting;
//! pixel rendering and the display transport are the application's.

use vstd::prelude::*;

use crate::buffer::text_of;
use crate::buffer::CodeBuffer;
use crate::machine::StatusMessage;

verus! {

/// The text of the hint line, shown once the entry is long enough that the
/// operator will want to finish or start over.
pub open spec fn hint_text() -> Seq<char> {
    "confirm with #, fix with *"@
}

/// The two or three text regions one display refresh shows.
pub struct DisplayContent {
    /// Primary region: the code as typed so far.
    pub code_line: String,
    /// Secondary region: the current feedback message.
    pub status_line: String,
    /// Hint region, present only past the presenter's threshold.
    pub hint_line: Option<String>,
}

/// Formats panel state into display text.
pub struct DisplayPresenter {
    /// Entry lengths strictly above this get the hint line.
    pub hint_threshold: usize,
}

impl DisplayPresenter {
    /// A presenter that adds the hint line for entries longer than
    /// `hint_threshold` symbols.
    pub fn new(hint_threshold: usize) -> (r: DisplayPresenter)
        ensures
            r.hint_threshold == hint_threshold,
    {
        DisplayPresenter { hint_threshold }
    }

    /// The display content for the current entry and message.
    pub fn present(&self, entry: &CodeBuffer, message: StatusMessage) -> (d: DisplayContent)
        ensures
            d.code_line@ == text_of(entry@),
            d.status_line@ == message.text_spec(),
            d.hint_line is Some <==> entry@.len() > self.hint_threshold,
            d.hint_line matches Some(h) ==> h@ == hint_text(),
    {
        let code_line = entry.as_text();
        let status_line = String::from_str(message.text());
        let hint_line = if entry.len() > self.hint_threshold {
            Some(String::from_str("confirm with #, fix with *"))
        } else {
            None
        };
        DisplayContent { code_line, status_line, hint_line }
    }
}

} // verus!
