[package]
name = "backend_launcher"
version = "0.1.0"
edition = "2021"
publish = false

[dependencies]
dirs = "5"
log = "0.4"
tokio = { version = "1", features = ["time"] }
ureq = { version = "2", default-features = false }
