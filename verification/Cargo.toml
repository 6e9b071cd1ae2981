[package]
name = "rgb_contract_vm"
version = "0.1.0"
edition = "2021"
publish = false

[dependencies]
aluvm = "0.11.0"
amplify = "*"
bp-core = "0.11.0"
commit_verify = "0.11.0"
strict_encoding = "*"
