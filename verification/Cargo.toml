[package]
name = "vail_zoomer"
version = "0.1.0"
edition = "2021"
publish = false

[dependencies]
ringbuf = "=0.4.8"
cpal = "0.15"
crossbeam-channel = "0.5"
midir = "0.10"
parking_lot = "0.12"
dirs = "6"
serde = { version = "1", features = ["derive"] }
serde_json = "1"
pulsectl-rs = "*"
