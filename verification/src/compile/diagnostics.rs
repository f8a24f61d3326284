//! Diagnostics are plain data: a message, a primary location and any number of
//! labelled secondary locations. Producing one never stops a compilation stage.

use vstd::prelude::*;
use vstd::string::StringExecFns;
use crate::compile::hir::{ExprId, InstructionId};

verus! {

/// A half-open range of byte offsets into the source text.
#[derive(Clone, Copy, Debug, PartialEq, Eq, Hash, Structural)]
pub struct Span {
    pub start: u32,
    pub end: u32,
}

impl Span {
    pub fn new(start: u32, end: u32) -> (span: Span)
        ensures
            span.start == start,
            span.end == end,
    {
        Span { start, end }
    }
}

/// Where a diagnostic points: at a node of the intermediate representation, or
/// at a range of the source text. Never both.
#[derive(Clone, Copy, Debug, PartialEq, Eq, Hash, Structural)]
pub enum Location {
    Expr(ExprId),
    Instruction(InstructionId),
    Span(Span),
}

/// A secondary location with its own message, such as "defined here".
#[derive(Clone, Debug, PartialEq, Eq)]
pub struct Label {
    pub message: String,
    pub location: Location,
}

#[derive(Clone, Debug, PartialEq, Eq)]
pub struct Diagnostic {
    pub message: String,
    pub location: Location,
    pub additional_labels: Vec<Label>,
}

pub struct LabelView {
    pub message: Seq<char>,
    pub location: Location,
}

pub struct DiagnosticView {
    pub message: Seq<char>,
    pub location: Location,
    pub labels: Seq<LabelView>,
}

impl View for Label {
    type V = LabelView;

    open spec fn view(&self) -> LabelView {
        LabelView { message: self.message@, location: self.location }
    }
}

impl View for Diagnostic {
    type V = DiagnosticView;

    open spec fn view(&self) -> DiagnosticView {
        DiagnosticView {
            message: self.message@,
            location: self.location,
            labels: self.additional_labels@.map_values(|label: Label| label@),
        }
    }
}

/// A diagnostic without secondary labels, as a mathematical value.
pub open spec fn plain_diagnostic(location: Location, message: Seq<char>) -> DiagnosticView {
    DiagnosticView { message, location, labels: Seq::empty() }
}

/// The views of a list of diagnostics, in order.
pub open spec fn diagnostics_view(list: Seq<Diagnostic>) -> Seq<DiagnosticView> {
    list.map_values(|diagnostic: Diagnostic| diagnostic@)
}

/// Appending one diagnostic to a list appends its view to the list's view.
pub proof fn lemma_diagnostics_view_push(list: Seq<Diagnostic>, diagnostic: Diagnostic)
    ensures
        diagnostics_view(list.push(diagnostic)) == diagnostics_view(list).push(diagnostic@),
{
    assert(diagnostics_view(list.push(diagnostic)) =~= diagnostics_view(list).push(diagnostic@));
}

impl Diagnostic {
    pub fn new(location: Location, message: String) -> (diagnostic: Diagnostic)
        ensures
            diagnostic@ == plain_diagnostic(location, message@),
    {
        let diagnostic = Diagnostic { message, location, additional_labels: Vec::new() };
        assert(diagnostic@.labels =~= Seq::empty());
        diagnostic
    }

    /// The same diagnostic with one more labelled location at the end.
    pub fn with_additional_label(self, message: String, location: Location) -> (diagnostic:
        Diagnostic)
        ensures
            diagnostic@ == (DiagnosticView {
                labels: self@.labels.push(LabelView { message: message@, location }),
                ..self@
            }),
    {
        let mut diagnostic = self;
        let label = Label { message, location };
        diagnostic.additional_labels.push(label);
        assert(diagnostic@.labels =~= self@.labels.push(label@));
        diagnostic
    }

    /// The message as an owned string.
    pub fn message(&self) -> (message: String)
        ensures
            message@ == self@.message,
    {
        String::from_str(self.message.as_str())
    }
}

} // verus!
