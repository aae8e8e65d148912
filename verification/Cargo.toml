[package]
name = "wolfssl"
version = "0.1.0"
edition = "2021"
publish = false

[dependencies]
log = "*"
parking_lot = "*"
wolfssl-sys = "*"
