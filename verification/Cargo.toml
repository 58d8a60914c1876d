[package]
name = "starn"
version = "0.1.0"
edition = "2021"
publish = false

[dependencies]
chrono = "0.4"
figment = { version = "0.10", features = ["toml"] }
jsonwebtoken = { version = "8", default-features = false }
log = "0.4"
log4rs = "1"
md5 = "0.7"
rocket = { version = "0.5", features = ["json"] }
rocket_db_pools = { version = "*", features = ["mongodb"] }
serde = { version = "1", features = ["derive"] }
serde_json = "1"
