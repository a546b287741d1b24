[package]
name = "decofs"
version = "0.1.0"
edition = "2021"
publish = false

[dependencies]
libc = "0.2"
fuse_mt = "*"
log = "0.4"
chrono = "0.4"
