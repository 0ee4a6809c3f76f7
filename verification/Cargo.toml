[package]
name = "rayexec_execution"
version = "0.1.0"
edition = "2021"
publish = false

[dependencies]
arrow = { version = "*", default-features = false }
erased-serde = "=0.4.10"
serde = { version = "=1.0.229", features = ["derive"] }
