[package]
name = "kill-zen-all"
version = "0.1.0"
edition = "2021"
publish = false

[dependencies]
anyhow = "1"
clipboard = "0.5"
difference = "2"
dirs = "5"
env_logger = "0.10"
log = "0.4"
notify = "6"
regex = "1"
serde = { version = "1", features = ["derive"] }
serde_json = "1"
thiserror = "1"
