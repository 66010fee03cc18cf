[package]
name = "user_permission"
version = "0.1.0"
edition = "2021"
publish = false

[dependencies]
user-permission-core = "=0.2.5"
jsonwebtoken = "=9.3.1"
serde_json = "=1.0.154"
pyo3 = "=0.22.6"
pyo3-async-runtimes = { version = "=0.22.0", features = ["tokio-runtime"] }

[dev-dependencies]
tokio = { version = "=1.54.1", features = ["rt-multi-thread"] }
