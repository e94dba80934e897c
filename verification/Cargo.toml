[package]
name = "cart_build"
version = "0.1.0"
edition = "2021"
publish = false

[dependencies]
cargo_metadata = "*"
serde_json = "*"
binary-install = "*"
log = "*"
env_logger = "*"
buddy-alloc = "*"
