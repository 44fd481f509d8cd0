[package]
name = "bsreceiver"
version = "0.1.0"
edition = "2021"
publish = false

[dependencies]
bsread = { version = "=0.2.0", features = ["dispatcher"] }
clap = "=4.6.7"
env_logger = "=0.11.11"
