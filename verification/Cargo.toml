[package]
name = "unca"
version = "0.1.0"
edition = "2021"
publish = false

[dependencies]
anyhow = "1"
axum = { version = "0.7", features = ["ws"] }
dotenv = "0.15"
futures-util = "0.3"
indexmap = { version = "=2.14.2", features = ["std", "serde"] }
mongodb = "2"
rand = "=0.8.8"
serde = { version = "1", features = ["derive"] }
serde_json = "1"
tokio = { version = "1", features = ["macros", "net", "rt-multi-thread", "sync", "time"] }
