[package]
name = "kuri"
version = "0.1.0"
edition = "2021"
publish = false

[dependencies]
serde_json = "1"
url = "2"
uuid = { version = "1", features = ["v7"] }
tokio = { version = "1", features = ["rt", "macros", "io-std", "io-util"] }
tokio-util = { version = "0.7", features = ["codec"] }
futures = "0.3"
schemars = "0.8"
