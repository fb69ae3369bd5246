[package]
name = "rusty-server"
version = "0.1.0"
edition = "2021"
publish = false

[dependencies]
actix-cors = "0.7"
actix-web = "4"
base64 = "0.22"
chrono = "0.4"
dotenvy = "0.15"
env_logger = "0.11"
futures = "0.3"
handlebars = "*"
log = "0.4"
reqwest = { version = "0.12", features = ["blocking", "json", "multipart"] }
serde = { version = "1", features = ["derive"] }
serde_json = "1"
thiserror = "1"
