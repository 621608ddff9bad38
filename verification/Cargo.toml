[package]
name = "akinator"
version = "0.1.0"
edition = "2021"
publish = false

[dependencies]
akinator-rs = "*"
tokio = { version = "1", features = ["rt-multi-thread", "sync"] }
lazy_static = "1"
pyo3 = "*"
pyo3-asyncio = { version = "*", features = ["tokio-runtime"] }
