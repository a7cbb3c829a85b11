[package]
name = "finance_store"
version = "0.1.0"
edition = "2021"
publish = false

[dependencies]
chrono = { version = "=0.4.45", features = ["serde"] }
lazy_static = "=1.5.1"
rusqlite = "=0.40.2"
serde = { version = "=1.0.229", features = ["derive"] }
tauri = { version = "2", default-features = false }
