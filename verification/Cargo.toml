[package]
name = "chronicle"
version = "1.0.0"
edition = "2021"
publish = false

[dependencies]
axum = "0.8.9"
futures = "0.3.34"
iota-types = "=1.0.0-rc.7"
mongodb = "3.9.1"
packable = "0.7.0"
serde = { version = "1.0.229", features = ["derive"] }
tokio = { version = "1.54.1", features = ["rt-multi-thread", "net"] }
tracing = "0.1.44"
