[package]
name = "spa_server"
version = "0.1.0"
edition = "2021"
publish = false

[dependencies]
actix-web = "*"
actix-files = "*"
actix-cors = "*"
actix-rt = "*"
env_logger = "*"
