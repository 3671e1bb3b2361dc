[package]
name = "light_provider"
version = "0.1.0"
edition = "2021"
publish = false

[dependencies]
rlp = "=0.4.6"
ethereum-types = "=0.3.2"
parking_lot = "=0.5.5"
log = "0.4"
