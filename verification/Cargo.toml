[package]
name = "osrs_core"
version = "0.1.0"
edition = "2021"
publish = false

[dependencies]
pyo3 = { version = "0.20", features = ["extension-module"] }
rayon = "1"
screenshots = "0.8"
serde = { version = "1", features = ["derive"] }
serde_json = "1"
