[package]
name = "dbdispatch"
version = "0.1.0"
edition = "2021"
publish = false

[dependencies]
serde_json = "1"
sqlx = { version = "0.8", default-features = false, features = ["runtime-tokio", "mysql", "postgres", "sqlite", "json"] }
tokio = { version = "1", default-features = false, features = ["rt-multi-thread", "sync", "time"] }
dashmap = "6"
