[package]
name = "socks5_core"
version = "0.1.0"
edition = "2021"
publish = false

[dependencies]
anyhow = "*"
chrono = "*"
clap = "*"
env_logger = "*"
futures = "*"
log = "*"
tokio = { version = "*", features = ["rt", "net", "io-util", "signal", "macros"] }
