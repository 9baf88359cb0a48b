[package]
name = "aleo_tx"
version = "0.1.0"
edition = "2021"
publish = false

[dependencies]
anyhow = "1"
rand = "0.10"
snarkvm = "=4.11.0"

[dev-dependencies]
serde_json = "1"
