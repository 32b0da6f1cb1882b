[package]
name = "smart_gw"
version = "0.1.0"
edition = "2021"
publish = false

[dependencies]
rppal = "*"
rand = "*"

[dev-dependencies]
bincode = "1"
