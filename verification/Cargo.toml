[package]
name = "computation_process"
version = "0.1.0"
edition = "2021"
publish = false

[dependencies]
cancel-this = "*"
serde = { version = "*", features = ["derive"] }
serde_json = "*"
