[package]
name = "relm-core"
version = "0.1.0"
edition = "2021"
publish = false

[dependencies]
futures = "0.1"
quote = "0.3"
syn = "0.11"
