//! The library's error type: a message and an optional remediation hint.
use vstd::prelude::*;
use crate::logging::{record_line, Level, SimpleLogger};

verus! {

/// An error reported to the user. `hint`, when not empty, suggests how to fix the cause.
pub struct ErrorWithHint {
    pub err: String,
    pub hint: String,
}

impl ErrorWithHint {
    /// An error with a remediation hint.
    pub fn new(err: String, hint: String) -> (r: ErrorWithHint)
        ensures
            r.err@ == err@,
            r.hint@ == hint@,
    {
        ErrorWithHint { err, hint }
    }

    /// An error that carries no hint.
    pub fn plain(err: String) -> (r: ErrorWithHint)
        ensures
            r.err@ == err@,
            r.hint@ == Seq::<char>::empty(),
    {
        ErrorWithHint { err, hint: String::new() }
    }

    /// The text shown to the user, with `label` introducing the hint.
    pub open spec fn rendered(&self, label: Seq<char>) -> Seq<char> {
        if self.hint@.len() == 0 {
            self.err@
        } else {
            self.err@ + "\n"@ + label + ": "@ + self.hint@
        }
    }

    /// Renders the error: the message, then the hint (if any) on a line of its own after
    /// `label`.
    pub fn render(&self, label: &str) -> (r: String)
        ensures
            r@ == self.rendered(label@),
    {
        let mut r = self.err.clone();
        if self.hint.unicode_len() > 0 {
            r.append("\n");
            r.append(label);
            r.append(": ");
            r.append(self.hint.as_str());
        }
        r
    }

    /// The same error with `prefix` put before its message; the hint is kept.
    pub fn with_context(self, prefix: &str) -> (r: ErrorWithHint)
        ensures
            r.err@ == prefix@ + self.err@,
            r.hint@ == self.hint@,
    {
        let mut err = String::from_str(prefix);
        err.append(self.err.as_str());
        ErrorWithHint { err, hint: self.hint }
    }
}

/// Reports `err` to the log as an error, with `hint_label` introducing its hint. Errors are
/// shown at every level.
pub fn print_error(log: &mut SimpleLogger, err: &ErrorWithHint, hint_label: &str)
    ensures
        final(log).level == old(log).level,
        final(log).lines_view() == old(log).lines_view().push(
            record_line(Level::Error, "ego"@, "ego"@, err.rendered(hint_label@)),
        ),
{
    let text = err.render(hint_label);
    log.log(Level::Error, "ego", text.as_str());
}

} // verus!
