[package]
name = "bacify"
version = "0.1.0"
edition = "2021"
publish = false

[dependencies]
chrono = "0.4"
clap = { version = "4", features = ["derive"] }
dirs = "5"
env_logger = "0.11"
humantime = "2"
log = "0.4"
serde_json = "1"
sha2 = "0.10"
tempfile = "3"
walkdir = "2"
