[package]
name = "tccli"
version = "0.1.0"
edition = "2021"
publish = false

[dependencies]
hex = "0.4"
hmac = "0.12"
sha2 = "0.10"
time = "0.3"
serde = { version = "1", features = ["derive"] }
serde_json = "1"
reqwest = { version = "0.12", default-features = false, features = ["blocking", "rustls-tls"] }
clap = { version = "4", features = ["derive"] }
