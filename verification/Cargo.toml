[package]
name = "device_listener"
version = "0.1.0"
edition = "2021"
publish = false

[dependencies]
rdev = "*"
serde_json = "*"
