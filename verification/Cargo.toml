[package]
name = "multicurrency_precompile"
version = "0.1.0"
edition = "2021"
publish = false

[dependencies]
frame-support = "=49.0.0"

[dev-dependencies]
sha3 = "=0.10.9"
