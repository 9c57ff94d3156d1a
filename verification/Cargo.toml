[package]
name = "cdn"
version = "0.1.0"
edition = "2021"
publish = false

[dependencies]
actix-cors = "*"
actix-files = "*"
actix-multipart = "*"
actix-web = "*"
dotenv = "*"
env_logger = "*"
futures-util = "*"
log = "*"
mime = "*"
tokio = { version = "1", features = ["fs", "io-util"] }
uuid = { version = "1", features = ["v4"] }
