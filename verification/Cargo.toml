[package]
name = "stewardx_cli"
version = "0.1.0"
edition = "2021"
publish = false

[dependencies]
chrono = "0.4"
clap = "3"
cron = "*"
env_logger = "0.9"
fork = "0.1"
isahc = { version = "1", features = ["json"] }
log = "0.4"
serde_json = "1"
