[package]
name = "geomanpy"
version = "0.1.0"
edition = "2021"
publish = false

[dependencies]
glam = { version = "=0.32.1", features = ["serde", "approx"] }
squiggle = { version = "=1.0.0", features = ["serde", "approx"] }
approx = "=0.5.1"
serde = { version = "1", features = ["derive"] }
serde_json = "1"
serde-pickle = "=1.2.0"
pyo3 = "=0.29.3"
numpy = "=0.29.0"
pythonize = "=0.29.0"
