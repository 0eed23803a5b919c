[package]
name = "bls_blind"
version = "0.1.0"
edition = "2021"
publish = false

[dependencies]
bls12_381 = { version = "=0.8.0", features = ["experimental"] }
ff = "=0.13.1"
rand = "=0.8.8"
rand_core = "=0.6.4"
sha2 = "0.9"
digest = "=0.9.0"
