[package]
name = "myprotocol"
version = "0.1.0"
edition = "2021"
publish = false

[dependencies]
rusb = "0.9"
thiserror = "1"
tokio = { version = "1", features = ["net", "time", "io-util", "rt", "macros"] }
