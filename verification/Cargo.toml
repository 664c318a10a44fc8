[package]
name = "wemove"
version = "0.1.0"
edition = "2021"
publish = false

[dependencies]
anyhow = "1"
axum = "0.8"
bcrypt = "0.17"
clap = { version = "4", features = ["derive", "env"] }
dotenvy = "0.15"
jsonwebtoken = { version = "9", default-features = false }
metrics = "0.24"
metrics-exporter-prometheus = { version = "0.17", default-features = false }
serde = { version = "1", features = ["derive"] }
serde_json = { version = "1", features = ["preserve_order"] }
thiserror = "2"
tokio = { version = "1", features = ["rt-multi-thread", "macros", "net"] }
tower = { version = "0.5", features = ["util"] }
tower-http = { version = "0.6", features = ["trace"] }
turso = "0.8"
utoipa = "5"
