//! Encoding an instruction from its checked arguments.

use vstd::prelude::*;
use crate::compile::diagnostics::DiagnosticView;
use crate::compile::from_hir::{FromHirBlockCtx, FromHirCollectors};
use crate::compile::from_instr_args::FromInstrArgs;
use crate::format::instructions::{
    instruction_view,
    Instruction,
    InstructionView,
    NumberSpec,
    Operand,
    OperandView,
};

verus! {

/// The outcome of lowering one instruction: the encoded instruction, if there
/// is one, and what was reported.
pub struct Lowering {
    pub instruction: Option<InstructionView>,
    pub diagnostics: Seq<DiagnosticView>,
}

/// An encoder: it turns checked arguments into an instruction. `Dummy` tells
/// apart encoders that take the same arguments in different shapes.
pub trait InstrLowerFn<Dummy, Args: FromInstrArgs> {
    /// The outcome of encoding instruction `instr_name` with `args`.
    spec fn lowered(&self, ctx: &FromHirBlockCtx, instr_name: Seq<char>, args: Args) -> Lowering;

    fn lower_instr(
        &self,
        collectors: &mut FromHirCollectors,
        ctx: &FromHirBlockCtx,
        instr_name: &str,
        args: Args,
    ) -> (instruction: Option<Instruction>)
        ensures
            instruction_view(instruction) == self.lowered(ctx, instr_name@, args).instruction,
            final(collectors)@ == old(collectors)@ + self.lowered(
                ctx,
                instr_name@,
                args,
            ).diagnostics,
    ;
}

/// Encodes under a fixed opcode, with the arguments as operands in the order
/// in which they were written.
pub struct FixedOpcode {
    pub opcode: u8,
}

impl InstrLowerFn<(), ()> for FixedOpcode {
    open spec fn lowered(&self, ctx: &FromHirBlockCtx, instr_name: Seq<char>, args: ()) -> Lowering {
        Lowering {
            instruction: Some(InstructionView { opcode: self.opcode, operands: Seq::empty() }),
            diagnostics: Seq::empty(),
        }
    }

    fn lower_instr(
        &self,
        collectors: &mut FromHirCollectors,
        ctx: &FromHirBlockCtx,
        instr_name: &str,
        args: (),
    ) -> (instruction: Option<Instruction>) {
        assert(collectors@ + Seq::<DiagnosticView>::empty() =~= collectors@);
        Some(Instruction::new(self.opcode))
    }
}

impl InstrLowerFn<(), NumberSpec> for FixedOpcode {
    open spec fn lowered(&self, ctx: &FromHirBlockCtx, instr_name: Seq<char>, args: NumberSpec)
        -> Lowering {
        Lowering {
            instruction: Some(
                InstructionView { opcode: self.opcode, operands: seq![OperandView::Number(args)] },
            ),
            diagnostics: Seq::empty(),
        }
    }

    fn lower_instr(
        &self,
        collectors: &mut FromHirCollectors,
        ctx: &FromHirBlockCtx,
        instr_name: &str,
        args: NumberSpec,
    ) -> (instruction: Option<Instruction>) {
        assert(collectors@ + Seq::<DiagnosticView>::empty() =~= collectors@);
        let instruction = Instruction::new(self.opcode).with_operand(Operand::Number(args));
        assert(instruction@.operands =~= seq![OperandView::Number(args)]);
        Some(instruction)
    }
}

} // verus!
