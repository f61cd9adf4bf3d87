[package]
name = "bc_tags"
version = "0.1.0"
edition = "2021"
publish = false

[dependencies]
dcbor = "=0.25.2"
