[package]
name = "woi"
version = "0.1.0"
edition = "2021"

[dependencies]
futures = "*"
libc = "*"
slab = "*"
tracing = "*"
