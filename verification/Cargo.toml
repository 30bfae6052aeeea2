[package]
name = "wasm_validate"
version = "0.1.0"
edition = "2021"
publish = false

[dependencies]
wasmi = { version = "=2.0.0", default-features = false, features = ["std", "validate"] }
wasmparser = "=0.261.0"
