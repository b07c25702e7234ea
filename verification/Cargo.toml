[package]
name = "vanity_address"
version = "0.1.0"
edition = "2021"
publish = false

[dependencies]
rand = "=0.8.8"
secp256k1 = { version = "=0.29.1", features = ["rand"] }
tiny-keccak = "=1.5.0"
