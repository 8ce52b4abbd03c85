[package]
name = "oprf"
version = "0.1.0"
edition = "2021"

[dependencies]
argon2 = "0.5"
k256 = "0.13"
rand_core = { version = "0.6", features = ["getrandom"] }
sha3 = "0.10"
