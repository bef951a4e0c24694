[package]
name = "netstream"
version = "0.1.0"
edition = "2021"
publish = false

[dependencies]
futures = "0.1"
bytes = "0.3"
