[package]
name = "gitlab"
version = "0.1.0"
edition = "2021"
publish = false

[dependencies]
base64 = "=0.13.1"
chrono = { version = "=0.4.45", default-features = false, features = ["std", "now"] }
serde_json = "=1.0.154"
url = "=2.5.8"
reqwest = { version = "=0.11.27", default-features = false, features = ["blocking"] }
