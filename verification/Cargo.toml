[package]
name = "chat_client"
version = "0.1.0"
edition = "2021"
publish = false

[dependencies]
anyhow = "=1.0.104"
async-openai = "=0.11.1"
async-trait = "=0.1.92"
backoff = "=0.4.0"
reqwest = "=0.11.27"
tiktoken-rs = { version = "=0.4.5", features = ["async-openai"] }
tokio = { version = "=1.54.1", features = ["time"] }

[dev-dependencies]
fancy-regex = "=0.11.0"
