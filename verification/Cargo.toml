[package]
name = "nanowatchrs"
version = "0.1.0"
edition = "2021"
publish = false

[dependencies]
chrono = "0.4"
minijinja = { version = "1", features = ["loader"] }
reqwest = "0.11"
serde = { version = "1", features = ["derive"] }
serde_json = "1"
tokio = { version = "1", features = ["full"] }
