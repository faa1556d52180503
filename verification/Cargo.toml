[package]
name = "golem_agentic"
version = "0.1.0"
edition = "2021"
publish = false

[dependencies]
golem-rib = { version = "=1.3.1", default-features = false }
golem-wasm-rpc = { version = "=1.3.1", default-features = false, features = ["stub"] }
wasmtime = { version = "=33.0.2", default-features = false, features = ["runtime", "component-model", "async", "cranelift", "std"] }
wasmtime-wasi = { version = "=33.0.2", default-features = false }
tokio = { version = "=1.54.1", features = ["macros", "rt-multi-thread"] }
anyhow = "=1.0.104"
once_cell = "=1.21.4"
serde_json = "=1.0.154"
syn = { version = "=2.0.119", features = ["full"] }
quote = "=1.0.47"
dirs = "=7.0.0"
