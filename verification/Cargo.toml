[package]
name = "keller_ld"
version = "0.1.0"
edition = "2021"
publish = false

[dependencies]
embedded-hal = "1"
thiserror-no-std = "*"
