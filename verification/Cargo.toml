[package]
name = "wormhole"
version = "0.1.0"
edition = "2021"
publish = false

[dependencies]
tokio = { version = "1", features = ["full"] }
uuid = { version = "1", features = ["v4"] }
actix-web = "4"
anyhow = "1"
futures = "0.3"
thiserror = "1"
tracing = "0.1"
tracing-actix-web = "0.7"
tracing-appender = "0.2"
tracing-subscriber = { version = "0.3", features = ["env-filter"] }
