[package]
name = "ddmw_client"
version = "0.1.0"
edition = "2021"
publish = false

[dependencies]
blather = "*"
bytes = "*"
figment = { version = "*", features = ["toml"] }
futures = "*"
killswitch = "*"
serde = { version = "*", features = ["derive"] }
tokio = { version = "*", features = ["net", "io-util", "rt", "fs", "time", "sync", "macros"] }
tokio-stream = "*"
tokio-util = { version = "*", features = ["codec"] }
