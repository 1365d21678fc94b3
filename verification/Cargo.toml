[package]
name = "evm-ds"
version = "0.1.0"
edition = "2021"
publish = false

[dependencies]
evm = { version = "=0.35.0", features = ["tracing"] }
primitive-types = "=0.11.1"
anyhow = "=1.0.104"
eyre = "=0.6.14"
gcp-bigquery-client = "=0.28.0"
