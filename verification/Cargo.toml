[package]
name = "lookup_latency"
version = "0.1.0"
edition = "2021"
publish = false

[dependencies]
fastly = "*"

[dev-dependencies]
serde_json = "*"
