//! Syntax errors: what is wrong, and where in the text.

use vstd::prelude::*;
use vstd::string::StringExecFns;

verus! {

/// A range of the text, in bytes from its beginning: from `start` up to `end`.
#[derive(Clone, Copy, Debug, PartialEq, Eq, Hash, Structural)]
pub struct TextRange {
    pub start: u32,
    pub end: u32,
}

impl TextRange {
    pub fn new(start: u32, end: u32) -> (range: TextRange)
        requires
            start <= end,
        ensures
            range.start == start,
            range.end == end,
    {
        TextRange { start, end }
    }

    /// How many bytes the range covers.
    pub fn len(self) -> (len: u32)
        requires
            self.start <= self.end,
        ensures
            len == self.end - self.start,
    {
        self.end - self.start
    }
}

#[derive(Clone, Debug, PartialEq, Eq)]
pub struct SyntaxError {
    message: String,
    range: TextRange,
}

pub struct SyntaxErrorView {
    pub message: Seq<char>,
    pub range: TextRange,
}

impl View for SyntaxError {
    type V = SyntaxErrorView;

    closed spec fn view(&self) -> SyntaxErrorView {
        SyntaxErrorView { message: self.message@, range: self.range }
    }
}

impl SyntaxError {
    pub fn new(message: String, range: TextRange) -> (error: SyntaxError)
        ensures
            error@ == (SyntaxErrorView { message: message@, range }),
    {
        SyntaxError { message, range }
    }

    pub fn range(&self) -> (range: TextRange)
        ensures
            range == self@.range,
    {
        self.range
    }

    pub fn message(&self) -> (message: String)
        ensures
            message@ == self@.message,
    {
        String::from_str(self.message.as_str())
    }
}

/// The views of a list of errors, in order.
pub open spec fn errors_view(errors: Seq<SyntaxError>) -> Seq<SyntaxErrorView> {
    errors.map_values(|error: SyntaxError| error@)
}

} // verus!
