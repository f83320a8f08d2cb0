[package]
name = "input_recorder"
version = "0.1.0"
edition = "2021"
publish = false

[dependencies]
device_query = "*"
sysinfo = { version = "0.29", default-features = false }
