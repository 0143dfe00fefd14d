[package]
name = "isim"
version = "0.1.0"
edition = "2021"
publish = false

[dependencies]
chrono = "0.4"
serde = { version = "1", features = ["derive"] }
serde_yaml = "*"
cli-table = "0.4"
num-format = "0.4"
itertools = "*"
