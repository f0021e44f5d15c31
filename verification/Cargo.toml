[package]
name = "codex-wasm-bridge"
version = "0.1.0"
edition = "2021"
publish = false

[dependencies]
chrono = { version = "0.4", default-features = false, features = ["clock"] }
serde = { version = "1", features = ["derive"] }
serde_json = "1"
thiserror = "2"
tokio = { version = "1", features = ["sync", "process", "time", "io-util", "rt", "rt-multi-thread", "macros"] }
uuid = { version = "1", features = ["v4"] }
wasm-bindgen = "0.2"
