[package]
name = "prost-arrow"
version = "0.1.0"
edition = "2021"
publish = false

[dependencies]
arrow-array = "=60.1.0"
arrow-buffer = "=60.1.0"
arrow-data = "=60.1.0"
arrow-schema = "=60.1.0"
proc-macro2 = "=1.0.107"
quote = "=1.0.47"
syn = { version = "=2.0.119", features = ["full"] }
