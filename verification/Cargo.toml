[package]
name = "lz4_bridge"
version = "0.1.0"
edition = "2021"
publish = false

[dependencies]
lz4_flex = "=0.14.0"
libc = "=0.2.191"
