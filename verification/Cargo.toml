[package]
name = "erc20_ledger"
version = "0.1.0"
edition = "2021"
publish = false

[dependencies]
casper-types = "=1.5.0"
casper-contract = { version = "=1.4.4", default-features = false }
hex = "=0.4.3"

[dev-dependencies]
blake2 = "=0.9.2"
