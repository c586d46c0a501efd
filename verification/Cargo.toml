[package]
name = "risio"
version = "0.1.0"
edition = "2021"
publish = false

[dependencies]
libc = "=0.2.191"
memmap2 = "=0.9.12"
thiserror = "=2.0.21"
anyhow = "=1.0.104"
rayon = "=1.12.0"
sem_safe = "=0.2.1"
pyo3 = "*"
tokio = { version = "*", features = ["sync"] }
