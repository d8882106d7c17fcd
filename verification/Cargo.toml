[package]
name = "ph_mobile_network"
version = "0.1.0"
edition = "2021"
publish = false

[dependencies]
regex = "*"
lazy_static = "*"
