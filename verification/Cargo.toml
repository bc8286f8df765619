[package]
name = "tekla"
version = "0.1.0"
edition = "2021"
publish = false

[dependencies]
jsonwebtoken = "9"
chrono = "0.4"
uuid = { version = "1", features = ["v4"] }
rand = "0.9"
serde = { version = "1", features = ["derive"] }
serde_json = "1"
dashmap = "6"
tokio = { version = "1", features = ["full"] }
actix-web = "4"
actix-cors = "0.7"
axum = { version = "0.7", features = ["ws"] }
sqlx = { version = "0.8", default-features = false, features = ["sqlite", "runtime-tokio", "macros"] }
anyhow = "1"
thiserror = "1"
tracing = "0.1"
futures-util = "0.3"
dotenv = "0.15"
console = "0.15"
