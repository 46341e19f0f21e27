[package]
name = "bose_dfu"
version = "0.1.0"
edition = "2021"
publish = false

[dependencies]
crc32fast = "1"
hidapi = "2"
clap = { version = "4", features = ["derive"] }
anyhow = "1"
env_logger = "0.11"
log = "0.4"
