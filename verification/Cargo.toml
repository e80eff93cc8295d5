[package]
name = "uptime_monitor"
version = "0.1.0"
edition = "2021"
publish = false

[dependencies]
chrono = "*"
cron = "*"
env_logger = "*"
log = "*"
reqwest = { version = "*", default-features = false, features = ["json", "cookies"] }
serde = { version = "*", features = ["derive"] }
serde_json = "*"
tokio = { version = "*", features = ["macros", "rt-multi-thread"] }
