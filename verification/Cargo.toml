[package]
name = "blend_core"
version = "0.1.0"
edition = "2021"
publish = false

[dependencies]
soroban-sdk = "=25.3.2"
soroban-fixed-point-math = "=1.5.0"
sep-41-token = "=1.4.0"
cast = "=0.3.0"
