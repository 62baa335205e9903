[package]
name = "m68k_rt"
version = "0.1.0"
edition = "2021"
publish = false

[dependencies]
volatile-register = "0.2"
syn = { version = "2", features = ["full"] }
quote = "1"
proc-macro2 = "1"
