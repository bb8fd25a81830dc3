[package]
name = "stripe"
version = "0.1.0"
edition = "2021"
publish = false

[dependencies]
reqwest = { version = "*", features = ["blocking", "json"] }
serde = { version = "*", features = ["derive"] }
serde_json = "*"
serde_urlencoded = "*"
url = "*"
