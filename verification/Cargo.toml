[package]
name = "rustid"
version = "0.1.0"
edition = "2021"
publish = false

[dependencies]
base64 = "0.22"
fastrand = "2"
hex = "0.4"
pyo3 = { version = "0.23", features = ["extension-module", "abi3"] }
rayon = "1"
uuid = { version = "1", features = ["v1", "v4", "v7"] }
