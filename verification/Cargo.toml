[package]
name = "gemisch"
version = "0.1.0"
edition = "2021"
publish = false

[dependencies]
aquamarine = "*"
serde = { version = "1", features = ["derive"] }
serde_json = "1"
yew = { version = "0.21", features = ["csr"] }
yew-router = "0.18"
