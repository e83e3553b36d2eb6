[package]
name = "kayak_core"
version = "0.1.0"
edition = "2021"
publish = false

[dependencies]
morphorm = "0.3"
