[package]
name = "reading_features"
version = "0.1.0"
edition = "2021"
publish = false

[dependencies]
chrono = { version = "0.4", features = ["serde"] }
uuid = { version = "1", features = ["v4", "serde"] }
rust_decimal = "1"
serde = { version = "1", features = ["derive"] }
anyhow = "1"
async-trait = "0.1"
thiserror = "1"
tracing = "0.1"
sqlx = { version = "0.8", default-features = false, features = ["postgres", "runtime-tokio", "uuid", "chrono", "rust_decimal", "derive"] }
axum = "0.8"
utoipa = { version = "5", features = ["uuid", "chrono"] }
