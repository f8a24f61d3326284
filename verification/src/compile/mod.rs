//! Semantic analysis: diagnostics, the high-level intermediate representation,
//! constant evaluation and instruction lowering.

pub mod constexpr;
pub mod diagnostics;
pub mod from_hir;
pub mod from_instr_args;
pub mod hir;
pub mod instr_lowerer;
pub mod router;
