[package]
name = "session_middleware"
version = "0.1.0"
edition = "2021"
publish = false

[dependencies]
futures = "0.1"
hyper = "0.11"
mio = "0.6"
rand = "0.8"
rmp-serde = "1"
serde = { version = "1", features = ["derive"] }
tokio-core = "0.1"
tokio-io = "0.1"
