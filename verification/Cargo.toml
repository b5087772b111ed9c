[package]
name = "emerald_cli"
version = "0.1.0"
edition = "2021"
publish = false

[dependencies]
hex = "*"
rustc-serialize = "*"
serde_json = "*"
jsonrpc-core = "*"
