[package]
name = "tychentropy"
version = "0.1.0"
edition = "2021"
publish = false

[dependencies]
bip39 = "*"
rand = "0.8"
ring = "*"
nistrs = "*"
zeroize = "*"
