//! What the playback of a sound decides between two blocks of samples.

pub mod sound;
