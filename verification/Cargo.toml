[package]
name = "realm"
version = "0.1.0"
edition = "2021"
publish = false

[dependencies]
askama = "*"
diesel = { version = "*", default-features = false }
failure = "0.1"
http = "*"
lazy_static = "1"
serde = { version = "1", features = ["derive"] }
serde_json = "1"
