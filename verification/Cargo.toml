[package]
name = "axion_core"
version = "0.1.0"
edition = "2021"
publish = false

[dependencies]
chrono = "*"
pyo3 = { version = "*", default-features = false, features = ["auto-initialize"] }
serde = { version = "*", features = ["derive"] }
serde_json = "*"
