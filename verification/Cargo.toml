[package]
name = "romfs"
version = "0.1.0"
edition = "2021"
publish = false

[dependencies]
fuse_mt = "0.5"
libc = "0.2"
time = "0.1"
