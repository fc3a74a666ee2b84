[package]
name = "ckb_scenarios"
version = "0.1.0"
edition = "2021"
publish = false

[dependencies]
ckb-types = "*"
ckb-jsonrpc-types = "*"
serde_json = "1"
