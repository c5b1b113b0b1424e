[package]
name = "b15f"
version = "0.1.0"
edition = "2021"
publish = false

[dependencies]
rand = "*"
serialport = { version = "*", default-features = false }
