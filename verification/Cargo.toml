[package]
name = "spinneret"
version = "0.1.0"
edition = "2021"
publish = false
rust-version = "1.95"

[dependencies]
anyhow = "=1.0.104"
serde = { version = "=1.0.229", features = ["derive"] }
serde_json = "=1.0.154"
hyper = "=1.12.0"
tokio = { version = "=1.54.1", features = ["macros", "rt-multi-thread"] }
wasmtime = "=44.0.3"
wasmtime-wasi = "=44.0.3"
wasmtime-wasi-http = "=44.0.3"
