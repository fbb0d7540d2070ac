[package]
name = "pp_core"
version = "0.1.0"
edition = "2021"
publish = false

[dependencies]
rosu-pp = "0.4"
cpython = { version = "0.7", features = ["extension-module"] }
