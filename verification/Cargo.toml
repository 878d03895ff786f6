[package]
name = "audio_backend"
version = "0.1.0"
edition = "2021"
publish = false

[dependencies]
actix-cors = "0.7"
actix-multipart = "0.7"
actix-web = "4"
futures-util = "0.3"
rusqlite = "*"
sanitize-filename = "*"
serde = { version = "1", features = ["derive"] }
uuid = { version = "1", features = ["v4"] }
