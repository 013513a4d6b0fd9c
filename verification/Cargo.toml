[package]
name = "backup_man"
version = "0.1.0"
edition = "2021"
publish = false

[dependencies]
chrono = "*"
reqwest = { version = "*", features = ["json", "stream"] }
serde = { version = "*", features = ["derive"] }
serde_json = "*"
tokio = { version = "*", features = ["full"] }
tokio-util = { version = "*", features = ["io"] }
futures = "*"
rust-s3 = "*"
aws-creds = "*"
aws-region = "*"
daemonize-me = "*"
tracing = "*"
tracing-appender = "*"
tracing-subscriber = "*"
