[package]
name = "starknet_rs"
version = "0.1.0"
edition = "2021"
publish = false

[dependencies]
cairo-vm = "=0.1.3"
cairo-felt = "=0.1.3"
starknet-crypto = "=0.2.0"

[dev-dependencies]
num-bigint = "=0.4.8"
num-traits = "=0.2.19"
