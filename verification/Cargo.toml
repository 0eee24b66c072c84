[package]
name = "humidefi-dex"
version = "0.1.0"
edition = "2021"
publish = false

[dependencies]
serde_json = "1.0.154"
parity-scale-codec = "3.7.5"
frame-support = "49.0.1"
frame-system = "49.0.0"
