[package]
name = "weldgen"
version = "0.1.0"
edition = "2021"
publish = false

[dependencies]
atelier_core = "0.2"
serde = { version = "1", features = ["derive"] }
serde_json = "1"
tracing = "0.1"
