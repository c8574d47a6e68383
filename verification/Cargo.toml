[package]
name = "auto_drafter"
version = "0.1.0"
edition = "2021"
publish = false

[dependencies]
serde_json = "1"
serde = { version = "1", features = ["derive"] }
actix-web = "4"
actix-cors = "*"
actix-multipart = "*"
dotenv = "0.15"
futures = "0.3"
futures-util = "0.3"
reqwest = { version = "0.12", default-features = false, features = ["json", "multipart", "stream", "rustls-tls"] }
tempfile = "3"
tesseract = "*"
tokio = { version = "1", features = ["full"] }
tokio-util = { version = "0.7", features = ["io"] }
