[package]
name = "scaffold"
version = "0.1.0"
edition = "2021"
publish = false

[dependencies]
dialoguer = { version = "0.12", default-features = false }
hiro-system-kit = { version = "0.3", default-features = false }
log = "0.4"
mustache = "0.9"
txtx-core = { version = "0.4", default-features = false }
