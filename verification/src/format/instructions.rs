//! Encoded instructions and the operands they are made of.
//!
//! Which opcodes exist and which operands each one takes is laid down by the
//! virtual machine. An instruction here carries its opcode and its operands in
//! order, each operand with its type.

use vstd::prelude::*;

verus! {

/// A memory cell of the virtual machine: `$v<n>` names a global cell, `$a<n>`
/// an argument of the running subroutine.
#[derive(Clone, Copy, Debug, PartialEq, Eq, Hash, Structural)]
pub enum Register {
    Regular(u16),
    Argument(u16),
}

/// A number operand: a constant, or the register to read it from at run time.
#[derive(Clone, Copy, Debug, PartialEq, Eq, Hash, Structural)]
pub enum NumberSpec {
    Constant(i32),
    Register(Register),
}

/// A value that the virtual machine makes from a number of the scenario.
/// Which numbers stand for a value is for the type to say.
pub trait FromNumber: Sized {
    /// Whether `number` stands for a value.
    spec fn is_number(number: i32) -> bool;

    /// The value that `number` stands for.
    spec fn of_number(number: i32) -> Self;

    fn from_number(number: i32) -> (value: Self)
        requires
            Self::is_number(number),
        ensures
            value == Self::of_number(number),
    ;
}

#[derive(Clone, Debug, PartialEq, Eq)]
pub enum Operand {
    Number(NumberSpec),
    Register(Register),
    String(String),
    NumberArray(Vec<NumberSpec>),
}

pub enum OperandView {
    Number(NumberSpec),
    Register(Register),
    String(Seq<char>),
    NumberArray(Seq<NumberSpec>),
}

impl View for Operand {
    type V = OperandView;

    open spec fn view(&self) -> OperandView {
        match *self {
            Operand::Number(number) => OperandView::Number(number),
            Operand::Register(register) => OperandView::Register(register),
            Operand::String(string) => OperandView::String(string@),
            Operand::NumberArray(numbers) => OperandView::NumberArray(numbers@),
        }
    }
}

/// An instruction ready to be written out: the opcode and its operands.
#[derive(Clone, Debug, PartialEq, Eq)]
pub struct Instruction {
    pub opcode: u8,
    pub operands: Vec<Operand>,
}

pub struct InstructionView {
    pub opcode: u8,
    pub operands: Seq<OperandView>,
}

impl View for Instruction {
    type V = InstructionView;

    open spec fn view(&self) -> InstructionView {
        InstructionView {
            opcode: self.opcode,
            operands: self.operands@.map_values(|operand: Operand| operand@),
        }
    }
}

impl Instruction {
    /// An instruction without operands.
    pub fn new(opcode: u8) -> (instruction: Instruction)
        ensures
            instruction@ == (InstructionView { opcode, operands: Seq::empty() }),
    {
        let instruction = Instruction { opcode, operands: Vec::new() };
        assert(instruction@.operands =~= Seq::empty());
        instruction
    }

    /// The same instruction with one more operand at the end.
    pub fn with_operand(self, operand: Operand) -> (instruction: Instruction)
        ensures
            instruction@ == (InstructionView {
                opcode: self@.opcode,
                operands: self@.operands.push(operand@),
            }),
    {
        let mut instruction = self;
        instruction.operands.push(operand);
        assert(instruction@.operands =~= self@.operands.push(operand@));
        instruction
    }
}

/// The view of an instruction that may be absent.
pub open spec fn instruction_view(instruction: Option<Instruction>) -> Option<InstructionView> {
    match instruction {
        Some(instruction) => Some(instruction@),
        None => None,
    }
}

} // verus!
