[package]
name = "fnsd"
version = "0.1.0"
edition = "2021"
publish = false

[dependencies]
prost = "*"
serde = { version = "1", features = ["derive"] }
serde_json = "1"
rusqlite = { version = "*", features = ["bundled"] }
clap = { version = "4", features = ["derive", "env"] }
thiserror = "*"
tokio = { version = "1", features = ["full"] }
tracing = "*"
tracing-appender = "*"
tracing-subscriber = { version = "*", features = ["env-filter"] }
url = "2"
