[package]
name = "auth_service"
version = "0.1.0"
edition = "2021"
publish = false

[dependencies]
aes-gcm = "=0.10.3"
rand = "=0.8.8"
hex = "=0.4.3"
uuid = { version = "=1.29.0", features = ["v4"] }
oauth2 = { version = "=5.0.0", default-features = false, features = ["reqwest"] }
chrono = { version = "=0.4.45", features = ["serde"] }
time = "=0.3.55"
serde = { version = "=1.0.229", features = ["derive"] }
serde_json = "=1.0.154"
anyhow = "=1.0.104"
axum = "=0.8.9"
axum-extra = { version = "=0.10.3", features = ["cookie"] }
tokio = { version = "=1.54.1", features = ["full"] }
tower-http = { version = "=0.6.11", features = ["cors"] }
tracing = "=0.1.44"
dotenvy = "=0.15.7"
sqlx = { version = "=0.8.6", default-features = false, features = ["runtime-tokio", "postgres", "chrono", "json", "macros", "migrate"] }
redis = { version = "=0.27.6", features = ["tokio-comp"] }
reqwest = { version = "=0.12.28", default-features = false, features = ["json", "rustls-tls"] }
oso = "=0.27.3"
