[package]
name = "ccconsensus"
version = "0.1.0"
edition = "2021"
publish = false

[dependencies]
anyhow = "1"
chrono = "0.4"
clap = "2"
crossbeam-channel = "0.5"
fern = "0.6"
log = "0.4"
rand = "0.7"
sawtooth-sdk = "*"
sha2 = "0.9"
