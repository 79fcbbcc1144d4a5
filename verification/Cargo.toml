[package]
name = "capnp_import"
version = "0.1.0"
edition = "2021"
publish = false

[dependencies]
anyhow = "*"
cmake = "*"
which = "*"
