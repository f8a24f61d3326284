//! The memory that a running scenario reads its numbers from.

pub mod from_vm_ctx;

use vstd::prelude::*;
use crate::format::instructions::{NumberSpec, Register};

verus! {

pub struct VmCtx {
    /// The global cells, `$v0` first.
    pub globals: Vec<i32>,
    /// The arguments of the running subroutine, `$a0` first.
    pub arguments: Vec<i32>,
}

impl VmCtx {
    /// Whether the register names a cell that is there.
    pub open spec fn has_register(&self, register: Register) -> bool {
        match register {
            Register::Regular(index) => index < self.globals@.len(),
            Register::Argument(index) => index < self.arguments@.len(),
        }
    }

    /// What the cell of the register holds.
    pub open spec fn register_value(&self, register: Register) -> i32 {
        match register {
            Register::Regular(index) => self.globals@[index as int],
            Register::Argument(index) => self.arguments@[index as int],
        }
    }

    /// Whether the number can be had: a constant always, a register where its
    /// cell is there.
    pub open spec fn has_number(&self, number: NumberSpec) -> bool {
        match number {
            NumberSpec::Constant(_) => true,
            NumberSpec::Register(register) => self.has_register(register),
        }
    }

    /// The number that an operand stands for now.
    pub open spec fn number_value(&self, number: NumberSpec) -> i32 {
        match number {
            NumberSpec::Constant(value) => value,
            NumberSpec::Register(register) => self.register_value(register),
        }
    }

    pub fn new(globals: Vec<i32>, arguments: Vec<i32>) -> (ctx: VmCtx)
        ensures
            ctx.globals == globals,
            ctx.arguments == arguments,
    {
        VmCtx { globals, arguments }
    }

    pub fn contains_register(&self, register: Register) -> (found: bool)
        ensures
            found == self.has_register(register),
    {
        match register {
            Register::Regular(index) => (index as usize) < self.globals.len(),
            Register::Argument(index) => (index as usize) < self.arguments.len(),
        }
    }

    pub fn get_register(&self, register: Register) -> (value: i32)
        requires
            self.has_register(register),
        ensures
            value == self.register_value(register),
    {
        match register {
            Register::Regular(index) => self.globals[index as usize],
            Register::Argument(index) => self.arguments[index as usize],
        }
    }

    pub fn get_number(&self, number: NumberSpec) -> (value: i32)
        requires
            self.has_number(number),
        ensures
            value == self.number_value(number),
    {
        match number {
            NumberSpec::Constant(value) => value,
            NumberSpec::Register(register) => self.get_register(register),
        }
    }
}

} // verus!
