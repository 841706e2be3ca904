[package]
name = "signal_vote"
version = "0.1.0"
edition = "2021"
publish = false

[dependencies]
sp-arithmetic = "*"
anyhow = "1"
async-std = { version = "1", features = ["attributes"] }
clap = { version = "4", features = ["derive"] }
dirs = "*"
env_logger = "*"
exitfailure = "*"
rpassword = "*"
serde_json = "1"
