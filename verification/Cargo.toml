[package]
name = "cedarwasm"
version = "0.1.0"
edition = "2021"
publish = false

[dependencies]
cedar-policy = "*"
once_cell = "1"
thiserror = "1"
