[package]
name = "dht22"
version = "0.1.0"
edition = "2021"
publish = false

[dependencies]
critical-section = "=1.2.0"
scopeguard = { version = "=1.2.0", default-features = false }
thiserror = "=1.0.69"
