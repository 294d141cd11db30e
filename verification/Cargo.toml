[package]
name = "knuckles"
version = "0.1.0"
edition = "2021"
publish = false

[dependencies]
anyhow = "1"
chrono = { version = "0.4", features = ["serde"] }
dirs = "5"
futures = "0.3"
md5 = "0.7"
rand = "0.8"
reqwest = { version = "0.12", default-features = false, features = ["stream"] }
rodio = "0.19"
serde = { version = "1", features = ["derive"] }
serde_json = "1"
tokio = { version = "1", features = ["rt-multi-thread", "macros"] }
toml = "0.8"
url = "2"
