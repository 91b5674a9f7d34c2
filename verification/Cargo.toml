[package]
name = "custom_executor"
version = "0.1.0"
edition = "2021"
publish = false

[dependencies]
tokio = { version = "*", features = ["process", "io-util", "rt", "fs", "time"] }
command-group = { version = "*", features = ["with-tokio"] }
async-trait = "*"
serde = { version = "*", features = ["derive"] }
serde_json = "*"
