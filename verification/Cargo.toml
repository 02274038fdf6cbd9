[package]
name = "lala_lib"
version = "0.1.0"
edition = "2021"
publish = false

[dependencies]
anyhow = "*"
chrono = "*"
colored = "*"
dirs = "*"
dotenvy = "*"
env_logger = "*"
log = "*"
tokio = { version = "*", features = ["full"] }
