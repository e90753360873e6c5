[package]
name = "kdf_oracle"
version = "0.1.0"
edition = "2021"
publish = false

[dependencies]
orion = "=0.18.0"
ring = "0.17"
rand_chacha = "=0.3.1"
rand_core = "=0.6.4"
honggfuzz = "=0.5.62"
hkdf = "=0.13.0"
sha2 = "=0.11.0"
