[package]
name = "qa_api"
version = "0.1.0"
edition = "2021"
publish = false

[dependencies]
uuid = "1"
sqlx = { version = "0.7", default-features = false, features = ["runtime-tokio", "postgres", "uuid", "time"] }
axum = "0.6"
tokio = { version = "1", features = ["macros", "rt-multi-thread"] }
tower-http = { version = "0.4", features = ["cors"] }
http = "0.2"
dotenvy = "0.15"
pretty_env_logger = "0.5"
anyhow = "1"
async-trait = "0.1"
serde = { version = "1", features = ["derive"] }
thiserror = "1"
