[package]
name = "flash_loan"
version = "0.1.0"
edition = "2021"
publish = false

[dependencies]
pinocchio = "=0.9.3"
pinocchio-pubkey = "=0.3.0"
