[package]
name = "hashd"
version = "0.1.0"
edition = "2021"
publish = false

[dependencies]
ring = "*"
bip39 = "*"
clap = "*"
dirs = "*"
hex = "*"
indy-crypto = "*"
sled = "*"
