[package]
name = "axum_todo"
version = "0.1.0"
edition = "2021"
publish = false

[dependencies]
async-trait = "=0.1.92"
axum = "=0.8.9"
bcrypt = "=0.19.3"
chrono = "=0.4.45"
dotenvy = "=0.15.7"
jsonwebtoken = { version = "=11.1.0", features = ["rust_crypto"] }
sea-orm = { version = "=2.0.4", features = ["sqlx-postgres", "runtime-tokio-rustls", "macros", "with-uuid", "with-chrono"] }
sea-orm-migration = { version = "=2.0.4", features = ["sqlx-postgres", "runtime-tokio-rustls"] }
serde = { version = "=1.0.229", features = ["derive"] }
serde_json = { version = "=1.0.154", features = ["raw_value"] }
thiserror = "=2.0.21"
tokio = { version = "=1.54.1", features = ["full"] }
tower-http = { version = "=0.7.1", features = ["cors", "timeout", "trace"] }
tracing = "=0.1.44"
tracing-subscriber = { version = "=0.3.23", features = ["env-filter"] }
utoipa-swagger-ui = { version = "=10.0.2", features = ["axum", "vendored"] }
uuid = { version = "=1.29.1", features = ["serde", "v4"] }
validator = "=0.21.0"
