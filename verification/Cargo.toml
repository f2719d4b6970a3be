[package]
name = "wasmer_install"
version = "0.1.0"
edition = "2021"
publish = false

[dependencies]
anyhow = "1"
dirs = "*"
http_req = "*"
serde_json = "1"
tempfile = "3"
