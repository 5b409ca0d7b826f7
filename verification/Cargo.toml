[package]
name = "steel"
version = "0.1.0"
edition = "2021"
publish = false

[dependencies]
md5 = "0.7"
percent-encoding = "2"
png = "0.17"
serde = { version = "1", features = ["derive"] }
serde_yaml = "0.9"
