[package]
name = "topgg"
version = "0.1.0"
edition = "2021"
publish = false

[dependencies]
twilight-model = "*"
tokio = { version = "*", default-features = false, features = ["sync"] }
