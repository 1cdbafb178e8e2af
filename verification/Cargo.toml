[package]
name = "ckb_store"
version = "0.1.0"
edition = "2021"
publish = false

[dependencies]
bytes = "=0.4.12"
ckb-chain-spec = "=0.113.1"
ckb-traits = "=0.113.1"
ckb-types = "=0.113.1"
ckb-vm = "=0.15.1"
numext-fixed-hash = "=0.1.6"
