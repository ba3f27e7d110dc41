[package]
name = "livy_resolver"
version = "0.1.0"
edition = "2021"
publish = false

[dependencies]
sha2 = "=0.10.9"
hex = "=0.4.3"
base64 = "=0.22.1"
rand = "=0.9.5"
oauth2 = "=5.0.0"
serde = { version = "=1.0.229", features = ["derive"] }
serde_json = "=1.0.154"
thiserror = "=2.0.21"
dotenvy = "=0.15.7"
axum = { version = "=0.8.9", features = ["macros"] }
tokio = { version = "=1.54.1", features = ["full"] }
tower = "=0.5.3"
reqwest = { version = "=0.12.28", default-features = false, features = ["json", "rustls-tls"] }
spider-client = "=0.1.92"
rmcp = { version = "=3.8.0", features = ["server", "macros", "transport-streamable-http-server"] }
