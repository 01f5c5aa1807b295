[package]
name = "streamcraft"
version = "0.1.0"
edition = "2021"

[dependencies]
crossbeam-channel = "0.5"
