[package]
name = "ecsdb"
version = "0.1.0"
edition = "2021"
publish = false

[dependencies]
serde_json = "1"
serde = { version = "1", features = ["derive"] }
rusqlite = { version = "*", features = ["bundled", "functions"] }
chrono = { version = "0.4", features = ["serde"] }
thiserror = "*"
anyhow = "1"
tracing = "0.1"
tracing-subscriber = "0.3"
clap = { version = "4", features = ["derive"] }
rustyline = "*"
anymap = "*"
