[package]
name = "ora_sql_builder"
version = "0.1.0"
edition = "2021"
publish = false

[dependencies]
serde_json = "1"
schemars = "0.8"
wildmatch = "2"
sqlx = { version = "0.8", default-features = false, features = ["any", "sqlite", "runtime-tokio"] }
