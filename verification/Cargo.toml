[package]
name = "vanilla_backend"
version = "0.1.0"
edition = "2021"
publish = false

[dependencies]
anyhow = "1"
axum = { version = "0.8", features = ["ws"] }
base64 = "0.22"
bb8 = "0.9"
bb8-postgres = "0.9"
chrono = { version = "0.4", features = ["serde"] }
crossterm = "0.28"
dotenvy = "0.15"
futures-util = { version = "0.3", features = ["sink"] }
hex = "0.4"
hmac = "0.12"
rand = "0.8"
ratatui = "0.29"
redis = { version = "0.27", features = ["tokio-comp", "connection-manager"] }
rustls = { version = "0.23", default-features = false, features = ["ring", "std", "tls12", "logging"] }
serde = { version = "1", features = ["derive"] }
serde_json = "1"
sha2 = "0.10"
tokio = { version = "1", features = ["full"] }
tokio-postgres = { version = "0.7", features = ["with-chrono-0_4", "with-serde_json-1"] }
tokio-postgres-rustls = "0.13"
tower = "0.5"
tower-http = { version = "0.6", features = ["cors", "trace", "compression-gzip"] }
tracing = "0.1"
tracing-subscriber = { version = "0.3", features = ["env-filter"] }
urlencoding = "2"
webpki-roots = "0.26"
