[package]
name = "imghost"
version = "0.1.0"
edition = "2021"
publish = false

[dependencies]
mime = "0.3"
rand = "0.8"
serde = { version = "1", features = ["derive"] }
serde_json = "1"
futures = "0.3"
actix-web = { version = "4", default-features = false, features = ["macros"] }
actix-multipart = { version = "0.6", default-features = false }
actix-files = "0.6"
