[package]
name = "dispatcher"
version = "0.1.0"
edition = "2021"
publish = false

[dependencies]
humantime = "2"
rand = "0.7"
tokio = { version = "0.2", features = ["full"] }
log = "0.4"
env_logger = "0.7"
config = "0.10"
