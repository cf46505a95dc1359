[package]
name = "reseeding"
version = "0.1.0"
edition = "2021"
publish = false

[dependencies]
libc = "0.2"
rand_core = "0.5"

[dev-dependencies]
rand_chacha = "0.2"
