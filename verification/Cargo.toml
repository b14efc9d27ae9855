[package]
name = "call_bridge"
version = "0.1.0"
edition = "2021"
publish = false

[dependencies]
deno_core = "0.93.0"
serde = { version = "1", features = ["derive"] }
tokio = { version = "1", features = ["macros", "rt", "sync"] }
url = "2"
