[package]
name = "wasm_vm"
version = "0.1.0"
edition = "2021"
publish = false

[dependencies]
wasmer = { version = "=6.1.0", default-features = false, features = ["sys", "singlepass", "wat"] }
wasmer-compiler-singlepass = "=6.1.0"
wasmer-vm = "=6.1.0"
parity-wasm = "=0.42.2"
pwasm-utils = "=0.19.0"
wasmparser = "=0.261.0"
tokio = { version = "=1.53.2", features = ["sync"], default-features = false }
