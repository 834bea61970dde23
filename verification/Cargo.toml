[package]
name = "llm_chain"
version = "0.1.0"
edition = "2021"
publish = false

[dependencies]
tiktoken-rs = "*"
serde = { version = "*", features = ["derive"] }
