[package]
name = "neon_serde"
version = "0.1.0"
edition = "2021"
publish = false

[dependencies]
neon = { version = "0.9", default-features = false, features = ["napi-6"] }
serde = "1"
snafu = "0.7"
