[package]
name = "ethkey"
version = "0.1.0"
edition = "2021"
publish = false

[dependencies]
ethereum-types = "0.9"
keccak-hash = "0.5"
parity-crypto = { version = "0.9", features = ["publickey"] }
rlp = "0.4"
