[package]
name = "pinecone-sdk"
version = "0.1.0"
edition = "2021"
publish = false

[dependencies]
serde = { version = "=1.0.229", features = ["derive"] }
serde_json = "=1.0.154"
reqwest = { version = "=0.12.28", default-features = false, features = ["json"] }
tokio = { version = "=1.54.1", features = ["time"] }
thiserror = "=1.0.69"
anyhow = "=1.0.104"
regex = "1"
