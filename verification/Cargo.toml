[package]
name = "udfs"
version = "0.1.0"
edition = "2021"
publish = false

[dependencies]
arrow = { version = "*", features = ["pyarrow"] }
eyre = "*"
pyo3 = "*"
