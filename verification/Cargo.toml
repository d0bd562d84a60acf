[package]
name = "openwhisk_wasm_runtime"
version = "0.1.0"
edition = "2021"
publish = false

[dependencies]
wasmtime = "=48.0.5"
wasmtime-wasi = "=48.0.5"
serde_json = "=1.0.151"
cap-std = "*"

[dev-dependencies]
wat = "*"
