[package]
name = "async-redis-session"
version = "0.1.0"
edition = "2021"
publish = false

[dependencies]
async-session = "3.0.0"
base64 = "0.13"
redis = { version = "0.21", features = ["aio", "async-std-comp"] }
serde_json = "1"
thiserror = "1"
