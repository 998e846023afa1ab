[package]
name = "juxtapose"
version = "0.1.0"
edition = "2021"
publish = false

[dependencies]
base64 = "*"
blake3 = "*"
constant_time_eq = "*"
