[package]
name = "steam_connect"
version = "0.1.0"
edition = "2021"
publish = false

[dependencies]
url = "=2.5.8"
serde_qs = "=0.12.0"
serde_json = "=1.0.154"
serde = { version = "=1.0.229", features = ["derive"] }
reqwest = { version = "=0.12.28", default-features = false, features = ["json", "rustls-tls"] }
actix-web = { version = "=4.18.1", default-features = false }

[dev-dependencies]
regex = "=1.13.1"
