[package]
name = "one_million_crabs"
version = "0.1.0"
edition = "2021"
publish = false

[dependencies]
common-game = "=3.0.0"
crossbeam-channel = "=0.5.17"
log = "=0.4.34"
