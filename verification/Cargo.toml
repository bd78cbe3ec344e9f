[package]
name = "prover"
version = "0.1.0"
edition = "2021"
publish = false

[dependencies]
base64 = "0.13"
axum = "*"
tokio = { version = "*", features = ["full"] }
tower-http = { version = "*", features = ["fs"] }
serde = { version = "*", features = ["derive"] }
serde_json = "*"
log = "*"
env_logger = "*"
