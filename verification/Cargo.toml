[package]
name = "perf_map"
version = "0.1.0"
edition = "2021"
publish = false

[dependencies]
bcc-sys = "*"

[dev-dependencies]
byteorder = "*"
