[package]
name = "incrementer"
version = "0.1.0"
edition = "2021"
publish = false

[dependencies]
log = "0.4"
pyo3 = { version = "0.23", features = ["auto-initialize"] }
pyo3-log = "*"
thiserror = "1"
tokio = { version = "1", features = ["rt", "time", "macros"] }
