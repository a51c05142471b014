[package]
name = "sms_code_service"
version = "0.1.0"
edition = "2021"
publish = false

[dependencies]
actix-web = "*"
dotenv = "*"
env_logger = "*"
mongodb = "*"
nb-from-env = "*"
serde = { version = "*", features = ["derive"] }
