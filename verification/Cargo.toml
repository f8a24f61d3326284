[package]
name = "shin_asm"
version = "0.1.0"
edition = "2021"
publish = false

[dependencies]
rowan = "0.15"
rustc-hash = "1.1"
either = "1"
enum-map = "2"
smallvec = "1"
proc-macro2 = "1"
quote = "1"
