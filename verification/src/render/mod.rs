//! What the renderer computes before it asks the graphics device for
//! anything.

pub mod buffer;
