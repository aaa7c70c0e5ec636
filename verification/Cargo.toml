[package]
name = "worker"
version = "0.1.0"
edition = "2021"
publish = false

[dependencies]
uuid = { version = "1", features = ["v4"] }
tokio = { version = "1", features = ["process", "rt-multi-thread", "macros"] }
serde = { version = "1", features = ["derive"] }
jsonwebtoken = "9"
chrono = "0.4"
clap = "2"
reqwest = { version = "0.11", features = ["blocking", "json"] }
rocket = { version = "0.5", features = ["json", "uuid"] }
