//! Reading and checking the arguments of an instruction.

use vstd::prelude::*;
use vstd::string::StringExecFns;
use crate::compile::diagnostics::{plain_diagnostic, DiagnosticView, Location};
use crate::compile::from_hir::{FromHirBlockCtx, FromHirCollectors};
use crate::compile::hir::{Expr, ExprId, InstructionId, Literal};
use crate::format::instructions::NumberSpec;

verus! {

/// The arguments of one kind of instruction, read from the block and checked.
pub trait FromInstrArgs: Sized {
    /// The arguments of instruction `instr`, or `None` where they are not
    /// what this kind of instruction takes.
    spec fn extracted(ctx: &FromHirBlockCtx, instr: InstructionId) -> Option<Self>;

    /// What reading the arguments of instruction `instr` reports.
    spec fn extraction_reports(ctx: &FromHirBlockCtx, instr: InstructionId) -> Seq<DiagnosticView>;

    fn from_instr_args(
        collectors: &mut FromHirCollectors,
        ctx: &FromHirBlockCtx,
        instr: InstructionId,
    ) -> (args: Option<Self>)
        requires
            ctx.block.has_instruction(instr),
        ensures
            args == Self::extracted(ctx, instr),
            final(collectors)@ == old(collectors)@ + Self::extraction_reports(ctx, instr),
    ;
}

/// The arguments of instruction `instr` as written.
pub open spec fn written_args(ctx: &FromHirBlockCtx, instr: InstructionId) -> Seq<ExprId> {
    ctx.block.instructions()[instr.index()].args@
}

pub open spec fn no_arguments_message() -> Seq<char> {
    "Expected no arguments"@
}

pub open spec fn one_argument_message() -> Seq<char> {
    "Expected exactly one argument"@
}

pub open spec fn number_message() -> Seq<char> {
    "Expected a number or a register"@
}

/// An instruction without arguments.
impl FromInstrArgs for () {
    open spec fn extracted(ctx: &FromHirBlockCtx, instr: InstructionId) -> Option<()> {
        if written_args(ctx, instr).len() == 0 {
            Some(())
        } else {
            None
        }
    }

    open spec fn extraction_reports(ctx: &FromHirBlockCtx, instr: InstructionId) -> Seq<
        DiagnosticView,
    > {
        if written_args(ctx, instr).len() == 0 {
            Seq::empty()
        } else {
            seq![plain_diagnostic(Location::Instruction(instr), no_arguments_message())]
        }
    }

    fn from_instr_args(
        collectors: &mut FromHirCollectors,
        ctx: &FromHirBlockCtx,
        instr: InstructionId,
    ) -> (args: Option<()>) {
        let ghost before = collectors@;
        if ctx.block.instruction(instr).args.len() == 0 {
            assert(before + Seq::<DiagnosticView>::empty() =~= before);
            Some(())
        } else {
            collectors.emit_diagnostic(
                Location::Instruction(instr),
                String::from_str("Expected no arguments"),
            );
            assert(collectors@ =~= before + Self::extraction_reports(ctx, instr));
            None
        }
    }
}

/// The number that an expression stands for as an operand: an integer
/// literal is a constant, a register is read at run time.
pub open spec fn as_number(expr: Expr) -> Option<NumberSpec> {
    match expr {
        Expr::Literal(Literal::IntNumber(value)) => Some(NumberSpec::Constant(value)),
        Expr::RegisterRef(register) => Some(NumberSpec::Register(register)),
        _ => None,
    }
}

/// An instruction with one argument, a number.
impl FromInstrArgs for NumberSpec {
    open spec fn extracted(ctx: &FromHirBlockCtx, instr: InstructionId) -> Option<NumberSpec> {
        if written_args(ctx, instr).len() == 1 {
            as_number(ctx.block.exprs()[written_args(ctx, instr)[0].index()])
        } else {
            None
        }
    }

    open spec fn extraction_reports(ctx: &FromHirBlockCtx, instr: InstructionId) -> Seq<
        DiagnosticView,
    > {
        if written_args(ctx, instr).len() != 1 {
            seq![plain_diagnostic(Location::Instruction(instr), one_argument_message())]
        } else if as_number(ctx.block.exprs()[written_args(ctx, instr)[0].index()]) is None {
            seq![plain_diagnostic(Location::Expr(written_args(ctx, instr)[0]), number_message())]
        } else {
            Seq::empty()
        }
    }

    fn from_instr_args(
        collectors: &mut FromHirCollectors,
        ctx: &FromHirBlockCtx,
        instr: InstructionId,
    ) -> (args: Option<NumberSpec>) {
        let ghost before = collectors@;
        let instruction = ctx.block.instruction(instr);
        if instruction.args.len() != 1 {
            collectors.emit_diagnostic(
                Location::Instruction(instr),
                String::from_str("Expected exactly one argument"),
            );
            assert(collectors@ =~= before + Self::extraction_reports(ctx, instr));
            return None;
        }
        let argument = instruction.args[0];
        let number = match ctx.block.expr(argument) {
            Expr::Literal(Literal::IntNumber(value)) => Some(NumberSpec::Constant(*value)),
            Expr::RegisterRef(register) => Some(NumberSpec::Register(*register)),
            _ => None,
        };
        if number.is_none() {
            collectors.emit_diagnostic(
                Location::Expr(argument),
                String::from_str("Expected a number or a register"),
            );
            assert(collectors@ =~= before + Self::extraction_reports(ctx, instr));
        } else {
            assert(before + Seq::<DiagnosticView>::empty() =~= before);
        }
        number
    }
}

} // verus!
