[package]
name = "plan_settings"
version = "0.1.0"
edition = "2021"
publish = false

[dependencies]
anyhow = "1"
chrono = { version = "0.4", default-features = false, features = ["alloc"] }
ratatui = { version = "0.29", default-features = false }
toml = "0.9"
sqlx = { version = "0.8", default-features = false, features = ["derive"] }
