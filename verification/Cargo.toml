[package]
name = "internal_bluefox_lib"
version = "0.1.0"
edition = "2021"
publish = false

[dependencies]
libloading = "*"
tempdir = "0.3"
dirs = "*"
lazy_static = "1"
