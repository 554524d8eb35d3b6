[package]
name = "bootc_core"
version = "0.1.0"
edition = "2021"
publish = false

[dependencies]
cap-std = "*"
cap-std-ext = "*"
tempfile = "3"
which = "*"
