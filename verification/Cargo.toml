[package]
name = "stake_engine"
version = "0.1.0"
edition = "2021"
publish = false

[dependencies]
base64 = "=0.13.1"
schemars = "=0.8.22"
secret-cosmwasm-std = "=1.1.11"
secret-toolkit = { version = "=0.10.3", features = ["permit"] }
serde = { version = "=1.0.229", features = ["derive"] }
sha2 = "=0.10.9"
