[package]
name = "cortex-mem-cli"
version = "0.1.0"
edition = "2021"
publish = false

[dependencies]
anyhow = "1"
colored = "*"
chrono = { version = "0.4", default-features = false, features = ["alloc"] }
