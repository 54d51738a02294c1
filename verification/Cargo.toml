[package]
name = "todo_services"
version = "0.1.0"
edition = "2021"
publish = false

[dependencies]
uuid = { version = "*", features = ["v4"] }
actix-web = "*"
tonic = "*"
tokio = { version = "*", features = ["rt-multi-thread", "macros"] }
log = "*"
env_logger = "*"
dotenv = "*"
