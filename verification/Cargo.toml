[package]
name = "nvidia-zerodb"
version = "0.1.0"
edition = "2021"
publish = false

[dependencies]
anyhow = "1"
rust-ini = "*"
log = "0.4"
notify-rust = "4"
pretty_env_logger = "*"
signal-hook = "0.3"
system_shutdown = "*"
