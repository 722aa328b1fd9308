[package]
name = "oauth_gate"
version = "0.1.0"
edition = "2021"
publish = false

[dependencies]
serde_json = "=1.0.151"
reqwest = { version = "*", default-features = false }
tokio = { version = "*", features = ["rt-multi-thread", "macros"] }
poem = { version = "=3.1.12", features = ["static-files"] }
poem-openapi = "=5.1.16"
poem-grants = "=3.0.2"
tracing = "*"
tracing-subscriber = "*"
color-eyre = "*"
dotenv = "*"
