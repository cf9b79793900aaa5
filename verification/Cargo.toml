[package]
name = "todo_live"
version = "0.1.0"
edition = "2021"
publish = false

[dependencies]
tokio = { version = "=1.54.1", features = ["sync", "time", "macros"] }
rocket = { version = "=0.5.2", features = ["json"] }
rocket_db_pools = { version = "=0.2.0", features = ["sqlx_sqlite"] }
sqlx = { version = "=0.7.4", default-features = false, features = ["migrate"] }
askama = { version = "0.12", features = ["with-rocket"] }
askama_rocket = "=0.12.0"
serde = { version = "=1.0.229", features = ["derive"] }
