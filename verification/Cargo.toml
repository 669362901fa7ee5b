[package]
name = "proofplus_client"
version = "0.1.0"
edition = "2021"
publish = false

[dependencies]
sha2 = "0.10"
ethers = { version = "2", default-features = false }
serde = { version = "1", features = ["derive"] }
serde_json = "1"
tokio = { version = "1", features = ["full"] }
reqwest = { version = "0.11", features = ["json"] }
diesel = { version = "2", features = ["sqlite"] }
anyhow = "1"
dotenv = "0.15"
tracing = "0.1"
tracing-subscriber = "0.3"
