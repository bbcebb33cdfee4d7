[package]
name = "loap"
version = "0.1.0"
edition = "2021"
publish = false

[dependencies]
ssh-key = { version = "0.6", features = ["ed25519"] }
uuid = { version = "1", features = ["v4"] }
anyhow = "1"
axum = "0.8"
chrono = { version = "0.4", features = ["serde"] }
futures = "0.3"
gray_matter = "*"
hypertext = "*"
log = "0.4"
markdown = "*"
object_store = { version = "*", features = ["aws"] }
serde = { version = "1", features = ["derive"] }
serde_json = "1"
serde_repr = "0.1"
sqlx = { version = "0.8", default-features = false, features = ["runtime-tokio", "sqlite", "chrono", "macros", "derive"] }
tokio = { version = "1", features = ["rt-multi-thread", "macros", "sync", "net"] }
tower-http = { version = "*", features = ["fs", "trace"] }
tracing-subscriber = { version = "0.3", features = ["env-filter"] }
