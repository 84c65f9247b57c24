[package]
name = "weather_app"
version = "0.1.0"
edition = "2021"
publish = false

[dependencies]
serde_json = "*"
urlencoding = "*"
reqwest = { version = "*", default-features = false, features = ["blocking", "rustls-tls"] }
