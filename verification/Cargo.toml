[package]
name = "r2d2_jfs"
version = "0.1.0"
edition = "2021"
publish = false

[dependencies]
jfs = "*"
r2d2 = "*"

[dev-dependencies]
tempdir = "*"
