//! Layers of the picture, as far as what they do is decided without drawing.

pub mod new_drawable_layer;
pub mod null_layer;
