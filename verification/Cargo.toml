[package]
name = "xchip"
version = "0.1.0"
edition = "2021"
publish = false

[dependencies]
axal = "*"
rand = "*"

[dev-dependencies]
float-cmp = "*"
