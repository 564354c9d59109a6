[package]
name = "cargo_lambda"
version = "0.1.0"
edition = "2021"
publish = false

[dependencies]
urlencoding = "=2.1.3"
base64 = "=0.22.1"
sha2 = "=0.10.9"
chrono = { version = "=0.4.45", default-features = false, features = ["clock", "std"] }
chrono-humanize = "=0.2.3"
matchit = "=0.8.6"
dunce = "=1.0.5"
liquid = "=0.26.11"
kstring = "=2.0.2"
serde = { version = "=1.0.229", features = ["derive"] }
serde_json = "=1.0.154"
toml = "=1.1.8"
env-file-reader = "=0.3.0"
zip = { version = "*", default-features = false }
