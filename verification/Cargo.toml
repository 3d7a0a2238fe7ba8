[package]
name = "workspace"
version = "0.1.0"
edition = "2021"
publish = false

[dependencies]
anyhow = "1.0"
log = "0.4"
postage = "0.4"
