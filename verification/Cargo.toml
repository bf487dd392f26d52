[package]
name = "near_greeting"
version = "0.1.0"
edition = "2021"
publish = false

[dependencies]
near-crypto = "=0.37.4"
near-primitives = "=0.37.4"
near-jsonrpc-client = "=0.22.0"
near-jsonrpc-primitives = "=0.37.4"
ed25519-dalek = "=2.2.0"
serde = { version = "*", features = ["derive"] }
serde_json = "*"
toml = "*"
dirs = "*"
