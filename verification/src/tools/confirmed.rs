//! Tools that run only once the user has agreed.

use super::bash::BashTool;
use super::edit_file::EditFileTool;
use crate::text::{lowercased, same_text, to_lowercase, trim, trimmed};
use vstd::prelude::*;

verus! {

/// Whether an answer, once trimmed and put in lower case, says yes: `y` or
/// `yes`.
pub open spec fn says_yes(answer: Seq<char>) -> bool {
    lowercased(trimmed(answer)) == "y"@ || lowercased(trimmed(answer)) == "yes"@
}

/// A tool together with the rule for when it may run.
#[derive(Debug, Clone)]
pub struct ConfirmedTool<T> {
    inner: T,
    yolo: bool,
}

impl<T> ConfirmedTool<T> {
    /// The tool inside.
    pub closed spec fn tool(&self) -> T {
        self.inner
    }

    /// Whether the tool runs without asking.
    pub closed spec fn unasked(&self) -> bool {
        self.yolo
    }

    /// The tool `inner`, which runs without asking where `yolo` is set.
    pub fn new(inner: T, yolo: bool) -> (r: Self)
        ensures
            r.tool() == inner,
            r.unasked() == yolo,
    {
        ConfirmedTool { inner, yolo }
    }

    /// The tool inside.
    pub fn inner(&self) -> (r: &T)
        ensures
            *r == self.tool(),
    {
        &self.inner
    }

    /// Whether the user has to be asked before the tool runs.
    pub fn needs_confirmation(&self) -> (r: bool)
        ensures
            r == !self.unasked(),
    {
        !self.yolo
    }

    /// Whether the tool may run: always where it runs without asking, else
    /// where the user's answer says yes.
    pub fn confirm_execution(&self, answer: &str) -> (r: bool)
        ensures
            r == (self.unasked() || says_yes(answer@)),
    {
        if self.yolo {
            return true;
        }
        let response = to_lowercase(trim(answer));
        same_text(response.as_str(), "y") || same_text(response.as_str(), "yes")
    }
}

/// The shell tool behind a confirmation.
#[derive(Debug, Clone)]
pub struct ConfirmedBashTool {
    inner: ConfirmedTool<BashTool>,
}

impl ConfirmedBashTool {
    /// The name under which the tool is offered.
    pub const NAME: &'static str = "bash";

    /// Whether the tool runs without asking.
    pub closed spec fn unasked(&self) -> bool {
        self.inner.unasked()
    }

    /// The shell tool, which runs without asking where `yolo` is set.
    pub fn new(yolo: bool) -> (r: Self)
        ensures
            r.unasked() == yolo,
    {
        ConfirmedBashTool { inner: ConfirmedTool::new(BashTool::new(), yolo) }
    }

    /// Whether the tool may run, given the user's answer.
    pub fn confirm_execution(&self, answer: &str) -> (r: bool)
        ensures
            r == (self.unasked() || says_yes(answer@)),
    {
        self.inner.confirm_execution(answer)
    }
}

/// The file editing tool behind a confirmation.
#[derive(Debug, Clone)]
pub struct ConfirmedEditFileTool {
    inner: ConfirmedTool<EditFileTool>,
}

impl ConfirmedEditFileTool {
    /// The name under which the tool is offered.
    pub const NAME: &'static str = "edit_file";

    /// Whether the tool runs without asking.
    pub closed spec fn unasked(&self) -> bool {
        self.inner.unasked()
    }

    /// The file editing tool, which runs without asking where `yolo` is
    /// set.
    pub fn new(yolo: bool) -> (r: Self)
        ensures
            r.unasked() == yolo,
    {
        ConfirmedEditFileTool { inner: ConfirmedTool::new(EditFileTool::new(), yolo) }
    }

    /// Whether the tool may run, given the user's answer.
    pub fn confirm_execution(&self, answer: &str) -> (r: bool)
        ensures
            r == (self.unasked() || says_yes(answer@)),
    {
        self.inner.confirm_execution(answer)
    }
}

} // verus!
