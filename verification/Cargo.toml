[package]
name = "wh_messenger"
version = "0.1.0"
edition = "2021"
publish = false

[dependencies]
anchor-lang = "0.30.1"
wormhole-anchor-sdk = "0.30.1-alpha.3"
wormhole-io = "*"
