//! What lowering a block works with: the block itself, and the place where
//! diagnostics are collected.

use vstd::prelude::*;
use crate::compile::diagnostics::{
    diagnostics_view,
    lemma_diagnostics_view_push,
    plain_diagnostic,
    Diagnostic,
    DiagnosticView,
    Location,
};
use crate::compile::hir::HirBlockBody;

verus! {

/// Where lowering puts what it has to report.
pub struct FromHirCollectors {
    pub diagnostics: Vec<Diagnostic>,
}

impl View for FromHirCollectors {
    type V = Seq<DiagnosticView>;

    open spec fn view(&self) -> Seq<DiagnosticView> {
        diagnostics_view(self.diagnostics@)
    }
}

impl FromHirCollectors {
    pub fn new() -> (collectors: FromHirCollectors)
        ensures
            collectors@ == Seq::<DiagnosticView>::empty(),
    {
        let collectors = FromHirCollectors { diagnostics: Vec::new() };
        assert(collectors@ =~= Seq::<DiagnosticView>::empty());
        collectors
    }

    /// Records a diagnostic without labels.
    pub fn emit_diagnostic(&mut self, location: Location, message: String)
        ensures
            final(self)@ == old(self)@.push(plain_diagnostic(location, message@)),
    {
        let diagnostic = Diagnostic::new(location, message);
        proof {
            lemma_diagnostics_view_push(self.diagnostics@, diagnostic);
        }
        self.diagnostics.push(diagnostic);
    }
}

/// What lowering may read: the block that the instruction belongs to.
pub struct FromHirBlockCtx<'a> {
    pub block: &'a HirBlockBody,
}

impl<'a> FromHirBlockCtx<'a> {
    pub fn new(block: &'a HirBlockBody) -> (ctx: FromHirBlockCtx<'a>)
        ensures
            ctx.block == block,
    {
        FromHirBlockCtx { block }
    }
}

} // verus!
