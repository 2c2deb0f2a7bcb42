[package]
name = "deoxy"
version = "0.1.0"
edition = "2021"
publish = false

[dependencies]
actix-web = "0.7"
failure = "0.1"
log = "0.4"
serde = { version = "1", features = ["derive"] }
toml = "0.5"
