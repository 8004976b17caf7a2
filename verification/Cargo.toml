[package]
name = "pairing_batcher"
version = "0.1.0"
edition = "2021"
publish = false

[dependencies]
ark-ec = "*"
ark-ff = "*"
ark-serialize = "*"
ark-bls12-381 = "*"

[dev-dependencies]
ark-std = "*"
