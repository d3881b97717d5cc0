[package]
name = "accounts"
version = "0.1.0"
edition = "2021"
publish = false

[dependencies]
oauth2 = "4.4"
url = "2"
uuid = { version = "1", features = ["v4", "serde"] }
chrono = { version = "0.4", features = ["serde"] }
serde = { version = "1", features = ["derive"] }
serde_json = "1"
toml = "0.8"
reqwest = { version = "0.11", default-features = false, features = ["json", "rustls-tls"] }
tokio = { version = "1", features = ["rt-multi-thread", "macros", "net", "sync"] }
axum = "0.8"
zbus = { version = "5", default-features = false, features = ["tokio"] }
secret-service = { version = "*", features = ["rt-tokio-crypto-rust"] }
thiserror = "2"
tracing = "0.1"
tracing-subscriber = "0.3"
async-trait = "0.1"
