[package]
name = "tx_processor"
version = "0.1.0"
edition = "2021"
publish = false

[dependencies]
clap = { version = "*", features = ["derive"] }
csv = "*"
env_logger = "*"
log = "*"
rust_decimal = { version = "*", features = ["serde"] }
serde = { version = "*", features = ["derive"] }
thiserror = "*"
