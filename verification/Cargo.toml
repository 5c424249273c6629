[package]
name = "log_saver"
version = "0.1.0"
edition = "2021"
publish = false

[dependencies]
serde_json = "1"
uuid = { version = "1", features = ["v4"] }
cron = "0.12"
chrono = "0.4"
serde = { version = "1", features = ["derive"] }
actix-web = "4"
actix-cors = "0.6"
tokio = { version = "1", features = ["full"] }
sea-orm = { version = "0.12", default-features = false, features = ["sqlx-postgres", "runtime-tokio-rustls", "macros", "with-json", "with-chrono", "with-uuid"] }
sea-query = "0.30"
dptree = "0.3"
futures = "0.3"
log = "0.4"
simple_logger = "4"
dotenv = "0.15"
syntect = { version = "5", default-features = false, features = ["default-fancy"] }
