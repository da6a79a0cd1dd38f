[package]
name = "enet"
version = "0.3.0"
edition = "2021"
publish = false

[dependencies]
enet-sys = "*"
thiserror = "1"
