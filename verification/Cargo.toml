[package]
name = "liquid_staking"
version = "0.1.0"
edition = "2021"
publish = false

[dependencies]
concordium-std = "=11.0.0"
concordium-cis2 = "=7.0.1"
sha2 = "=0.11.1"
