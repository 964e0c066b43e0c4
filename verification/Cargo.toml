[package]
name = "sage_auth"
version = "0.1.0"
edition = "2021"
publish = false

[dependencies]
reqwest = { version = "0.11", features = ["json"] }
serde = "1"
serde_derive = "1"
url = "2"
uuid = { version = "0.8", features = ["v4", "serde"] }
