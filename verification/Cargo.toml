[package]
name = "tacd"
version = "0.1.0"
edition = "2021"
publish = false

[dependencies]
anyhow = "=1.0.104"
async-std = "=1.13.2"
gpio-cdev = "=0.6.0"
industrial-io = "=0.6.1"
log = "=0.4.34"
nix = { version = "=0.31.3", features = ["feature"] }
serde = { version = "=1.0.229", features = ["derive"] }
systemd = "=0.10.1"
thread-priority = "=3.1.1"
