[package]
name = "users_api"
version = "0.1.0"
edition = "2021"
publish = false

[dependencies]
actix-web = "4"
deadpool-postgres = "*"
dotenv = "0.15"
serde = { version = "1", features = ["derive"] }
tokio-postgres = "*"
