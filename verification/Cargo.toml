[package]
name = "seo_engine"
version = "0.1.0"
edition = "2021"
publish = false

[dependencies]
axum = "*"
serde = { version = "*", features = ["derive"] }
serde_json = "*"
tokio = { version = "*", features = ["rt-multi-thread", "net", "macros"] }
utoipa = "*"
utoipa-swagger-ui = { version = "*", features = ["axum"] }
