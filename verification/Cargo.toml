[package]
name = "kitest"
version = "0.3.0"
edition = "2021"
publish = false

[dependencies]
crossbeam-channel = "0.5"
