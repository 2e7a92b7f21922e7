[package]
name = "rust_kilo"
version = "0.1.0"
edition = "2021"
publish = false

[dependencies]
libc = "=0.2.191"

[dev-dependencies]
errno = "0.3"
