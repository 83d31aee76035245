[package]
name = "diag_ctxt"
version = "0.1.0"
edition = "2021"
publish = false

[dependencies]
ahash = "0.8"
rustc-hash = "2"
