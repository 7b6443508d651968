[package]
name = "ray_tracer"
version = "0.1.0"
edition = "2021"
publish = false

[dependencies]
indicatif = "0.17"
pyo3 = { version = "0.20", features = ["extension-module"] }
rand = "0.8"
rayon = "1"
