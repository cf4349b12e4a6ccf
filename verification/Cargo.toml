[package]
name = "newsapi"
version = "0.1.0"
edition = "2021"
publish = false

[dependencies]
serde_json = "1"
url = "2"
serde = { version = "1", features = ["derive"] }
ureq = "2"
reqwest = { version = "0.11", default-features = false, features = ["rustls-tls"] }
confy = "0.5"
