[package]
name = "pyg"
version = "0.1.0"
edition = "2021"
publish = false

[dependencies]
anyhow = "1"
async-openai = { version = "0.38", features = ["chat-completion"] }
async-trait = "0.1"
chrono = { version = "0.4", features = ["serde"] }
futures-channel = "0.3"
futures-util = { version = "0.3", features = ["sink"] }
serde = { version = "1", features = ["derive"] }
serde_json = "1"
tokio = { version = "1", features = ["rt", "macros"] }
tracing = "0.1"
