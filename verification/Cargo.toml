[package]
name = "realworld_core"
version = "0.1.0"
edition = "2021"
publish = false

[dependencies]
base64 = "*"
chrono = "*"
ed25519-dalek = "*"
http = "*"
anyhow = "*"
async-trait = "*"
axum = "*"
serde = { version = "*", features = ["derive"] }
serde_json = "*"
tokio = { version = "*", features = ["rt", "sync", "macros"] }
uuid = { version = "*", features = ["v4"] }
