[package]
name = "users"
version = "0.1.0"
edition = "2021"
publish = false

[dependencies]
base64 = "=0.22.1"
sha2 = "=0.10.9"
chrono = { version = "=0.4.45", features = ["serde"] }
rand = "=0.9.5"
uuid = { version = "=1.29.0", features = ["v4", "serde"] }
jsonwebtoken = "=9.3.1"
serde = { version = "=1.0.229", features = ["derive"] }
serde_json = { version = "=1.0.154", features = ["raw_value"] }
axum = "=0.8.9"
tokio = { version = "=1.54.1", features = ["full"] }
tower-http = { version = "=0.6.11", features = ["fs"] }
tracing = "=0.1.44"
tracing-subscriber = { version = "=0.3.23", features = ["env-filter"] }
reqwest = { version = "=0.12.28", features = ["json"] }
futures = "=0.3.34"
webauthn-rs = { version = "=0.5.5", features = ["danger-allow-state-serialisation"] }
firestore = "=0.61.1"
