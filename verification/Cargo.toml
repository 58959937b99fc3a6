[package]
name = "houlog"
version = "0.1.0"
edition = "2021"
publish = false

[dependencies]
anyhow = "1"
glam = "*"
hapi-rs = "*"
log = "0.4"
serde_json = "1"
