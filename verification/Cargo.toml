[package]
name = "lightningd"
version = "0.1.0"
edition = "2021"
publish = false

[dependencies]
bitcoind = "*"
clightningrpc = "*"
log = "0.4"
tempfile = "3"
