[package]
name = "llm_client"
version = "0.1.0"
edition = "2021"
publish = false

[dependencies]
async-openai = "0.18"
async-trait = "0.1"
futures = "0.3"
serde = { version = "1", features = ["derive"] }
serde_json = "1"
tokio = { version = "1", features = ["sync", "rt"] }
