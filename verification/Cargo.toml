[package]
name = "noir"
version = "0.1.0"
edition = "2021"
publish = false

[dependencies]
magic-crypt = "*"
md-5 = "*"
sqlparser = "*"
uuid = { version = "*", features = ["v4"] }
tokio-util = "*"
serde_json = "*"
rusqlite = { version = "*", features = ["bundled"] }
