[package]
name = "session_identity"
version = "0.1.0"
edition = "2021"
publish = false

[dependencies]
jsonwebtoken = { version = "9", default-features = false }
serde_json = "1"
serde = { version = "1", features = ["derive"] }
chrono = { version = "0.4", default-features = false, features = ["clock"] }
uuid = { version = "1", features = ["v4"] }
axum = "0.8"
tokio = { version = "1", features = ["full"] }
tower-cookies = "0.11"
tower-http = { version = "0.6", features = ["fs"] }
bb8 = "0.9"
bb8-postgres = "0.9"
tokio-postgres = "0.7"
refinery = { version = "0.8", features = ["tokio-postgres"] }
askama = "0.14"
askama_web = { version = "0.14", features = ["axum-0.8"] }
time = "0.3"
once_cell = "1"
sha2 = "0.10"
regex = "1"
glob = "0.3"
