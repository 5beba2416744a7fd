[package]
name = "relay_core"
version = "0.1.0"
edition = "2021"
publish = false

[dependencies]
log = "0.4"
pretty_env_logger = "0.5"
tokio = { version = "1", features = ["full"] }
