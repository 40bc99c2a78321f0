[package]
name = "beetmash"
version = "0.1.0"
edition = "2021"
publish = false

[dependencies]
anyhow = "=1.0.104"
bevy = { version = "=0.15.3", default-features = false }
clap = "=4.6.7"
log = "=0.4.34"
ron = "=0.8.1"
serde = { version = "=1.0.229", features = ["derive"] }
serde_json = "=1.0.154"
ts-rs = "=10.1.0"
