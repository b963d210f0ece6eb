[package]
name = "preflight"
version = "0.1.0"
edition = "2021"
publish = false

[dependencies]
local_ipaddress = "=0.1.3"
rocket = "0.5"
serde = { version = "=1.0.229", features = ["derive"] }
serde_json = "=1.0.154"
serialport = { version = "=4.10.1", default-features = false }
