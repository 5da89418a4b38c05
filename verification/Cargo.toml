[package]
name = "subilo"
version = "0.1.0"
edition = "2021"
publish = false

[dependencies]
actix-web = { version = "4", default-features = false }
actix-web-httpauth = "0.8"
chrono = "0.4"
futures = "0.3"
jsonwebtoken = "9"
nanoid = "0.4"
serde = { version = "1", features = ["derive"] }
serde_json = { version = "1", features = ["preserve_order"] }
shellexpand = "3"
