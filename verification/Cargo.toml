[package]
name = "dbn"
version = "0.1.0"
edition = "2021"
publish = false

[dependencies]
anyhow = "1"
clap = { version = "3.2", features = ["derive"] }
csv = "1"
pyo3 = "*"
streaming-iterator = "0.1"
