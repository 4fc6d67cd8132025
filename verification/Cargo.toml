[package]
name = "beetle"
version = "0.1.0"
edition = "2021"
publish = false

[dependencies]
serde = { version = "=1.0.229", features = ["derive"] }
serde_json = "=1.0.154"
log = "=0.4.35"
env_logger = "=0.11.11"
libc = "=0.2.191"
ureq = "=2.12.1"
clap = { version = "4", features = ["derive"] }
