[package]
name = "http_ssh_server"
version = "0.1.0"
edition = "2021"
publish = false

[dependencies]
serde_json = "1"
uuid = { version = "1", features = ["v4"] }
chrono = "0.4"
actix = "0.13"
actix-web = "4"
actix-web-actors = "4"
wait-timeout = "0.2"
env_logger = "*"
