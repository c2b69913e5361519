[package]
name = "glean"
version = "0.1.0"
edition = "2021"
publish = false

[dependencies]
ffi-support = "*"
lazy_static = "1"
log = "0.4"
once_cell = "1"
serde_json = "1"
