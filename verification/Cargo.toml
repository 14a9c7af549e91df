[package]
name = "orbit"
version = "0.1.0"
edition = "2021"
publish = false

[dependencies]
colored = "=2.2.0"
curl = "=0.4.51"
home = "=0.5.12"
serde = { version = "=1.0.229", features = ["derive"] }
serde_json = "=1.0.154"
tempfile = "=3.27.0"
toml = "=1.1.8"
zip = { version = "=0.6.6", default-features = false, features = ["deflate"] }
