//! The side of the virtual machine that the compiler has to agree with: the
//! commands, their operands, and how an operand becomes a value at run time.

pub mod command;
pub mod ctx;
