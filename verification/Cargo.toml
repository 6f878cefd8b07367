[package]
name = "codex_status"
version = "0.1.0"
edition = "2021"
publish = false

[dependencies]
serde_json = "1"
serde = { version = "1", features = ["derive"] }
tokio = { version = "1", features = ["fs", "io-util", "rt", "macros"] }
libc = "0.2"
dirs = "*"
dunce = "1"
anyhow = "1"
async-trait = "0.1"
schemars = "0.8"
reqwest = { version = "0.12", default-features = false, features = ["multipart", "rustls-tls"] }
