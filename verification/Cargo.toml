[package]
name = "taric_core"
version = "0.1.0"
edition = "2021"
publish = false

[dependencies]
base64 = "*"
ed25519-dalek = "*"
sha2 = "*"
serde = { version = "*", features = ["derive"] }
serde_json = "*"
axum = "*"
tokio = { version = "*", features = ["rt-multi-thread", "net", "macros"] }
chrono = "*"
