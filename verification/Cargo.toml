[package]
name = "gifski_session"
version = "0.1.0"
edition = "2021"
publish = false

[dependencies]
pyo3 = { version = "0.17", features = ["extension-module"] }
rgb = "0.8"
