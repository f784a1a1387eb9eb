[package]
name = "rust_core"
version = "0.1.0"
edition = "2021"
publish = false

[dependencies]
sysinfo = "0.32"
nvml-wrapper = "*"
pyo3 = { version = "*", features = ["extension-module"] }
