[package]
name = "todo_service"
version = "0.1.0"
edition = "2021"
publish = false

[dependencies]
uuid = { version = "*", features = ["v4", "serde"] }
serde = { version = "*", features = ["derive"] }
actix-web = "*"
actix-rt = "*"
env_logger = "*"
