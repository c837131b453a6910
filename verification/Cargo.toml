[package]
name = "admission_control"
version = "0.1.0"
edition = "2021"
publish = false

[dependencies]
tokio = { version = "1", features = ["sync"] }
tower = { version = "0.4", default-features = false }
pin-project = "1"
