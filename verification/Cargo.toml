[package]
name = "blanknet"
version = "0.1.0"
edition = "2021"
publish = false

[dependencies]
serde_json = "1"
pnet = "0.35"
pyo3 = { version = "0.22", features = ["auto-initialize"] }
ratatui = "0.28"
clap = { version = "4", features = ["derive"] }
