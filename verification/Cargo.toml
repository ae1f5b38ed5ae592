[package]
name = "cw_manager_server"
version = "0.1.0"
edition = "2021"
publish = false

[dependencies]
futures = "0.3"
ntex = { version = "2", features = ["tokio"] }
serde = { version = "1", features = ["derive"] }
sqlx = { version = "0.8", default-features = false, features = ["sqlite", "runtime-tokio", "derive"] }
tracing = "0.1"
tracing-subscriber = "0.3"
