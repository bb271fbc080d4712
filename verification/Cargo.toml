[package]
name = "swiyu_issuer"
version = "0.1.0"
edition = "2021"
publish = false

[dependencies]
serde_json = "1"
base64 = "0.22"
bs58 = "0.5"
sha2 = "0.10"
getrandom = "0.3"
ed25519-dalek = "2"
dashmap = "6"
url = "2"
serde = { version = "1", features = ["derive"] }
chrono = "0.4"
thiserror = "2"
tokio = { version = "1", features = ["full"] }
reqwest = { version = "0.12", features = ["json"] }
axum = "0.8"
tower-sessions = "0.14"
tower-http = { version = "0.6", features = ["fs", "trace"] }
tracing = "0.1"
tracing-subscriber = { version = "0.3", features = ["env-filter"] }
openidconnect = "4"
sqlx = { version = "0.8", default-features = false, features = ["postgres", "runtime-tokio", "chrono", "macros"] }
