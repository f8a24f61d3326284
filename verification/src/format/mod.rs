//! The compiled form of a scenario: what the virtual machine reads.

pub mod instructions;
