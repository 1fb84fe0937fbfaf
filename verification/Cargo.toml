[package]
name = "investment_wallet"
version = "0.1.0"
edition = "2021"
publish = false

[dependencies]
bcrypt = "=0.15.1"
jsonwebtoken = "=9.3.1"
axum = "=0.8.9"
axum-extra = { version = "=0.10.3", features = ["cookie"] }
askama = "0.14"
sqlx = { version = "=0.8.6", default-features = false, features = ["mysql", "runtime-tokio", "chrono", "macros"] }
reqwest = { version = "=0.12.28", default-features = false, features = ["json", "rustls-tls"] }
tokio = { version = "=1.54.1", features = ["full"] }
serde = { version = "=1.0.229", features = ["derive"] }
serde_json = "=1.0.154"
chrono = { version = "=0.4.45", features = ["serde"] }
dotenvy = "=0.15.7"
