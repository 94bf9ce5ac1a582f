[package]
name = "querycourse"
version = "0.1.0"
edition = "2021"
publish = false

[dependencies]
url = "*"
serde = "*"
serde_json = "*"
serde_with = "*"
reqwest = { version = "*", default-features = false, features = ["json"] }
tokio = { version = "*", features = ["rt-multi-thread"] }
