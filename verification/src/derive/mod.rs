//! Helpers for the code that the derive macros write.

pub mod sanitization;
