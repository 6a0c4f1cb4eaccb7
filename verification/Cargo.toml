[package]
name = "survivalist-mod"
version = "0.1.0"
edition = "2021"
publish = false

[dependencies]
parking_lot = "0.12"
serde_json = "1"
