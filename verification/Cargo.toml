[package]
name = "records_api"
version = "0.1.0"
edition = "2021"
publish = false

[dependencies]
rand = "0.8"
serde = { version = "1", features = ["derive"] }
serde_json = "1"
thiserror = "1"
actix-web = "4"
actix-files = "0.6"
shuttle-actix-web = "*"
shuttle-runtime = "*"
