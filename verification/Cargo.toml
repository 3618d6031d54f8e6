[package]
name = "fetch_gateway"
version = "0.1.0"
edition = "2021"
publish = false

[dependencies]
url = "=2.5.8"
serde_json = "=1.0.154"
reqwest = { version = "=0.12.28", features = ["json"] }
