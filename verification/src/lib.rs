//! Compiler front end for the scenario assembly language: the lossless syntax
//! tree, the constant-expression evaluator and the instruction router, together
//! with the command operand types of the virtual machine that the compiled
//! instructions are written for.

pub mod audio;
pub mod compile;
pub mod derive;
pub mod format;
pub mod layer;
pub mod parser;
pub mod render;
pub mod syntax;
pub mod vm;
