[package]
name = "dictionary"
version = "0.1.0"
edition = "2021"
publish = false

[dependencies]
actix-web = "*"
askama = "*"
diesel = { version = "*", features = ["sqlite", "r2d2"] }
dotenv = "*"
env_logger = "*"
percent-encoding = "*"
serde = { version = "*", features = ["derive"] }
serde_json = "*"
