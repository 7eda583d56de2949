[package]
name = "cdn"
version = "0.1.0"
edition = "2021"
publish = false

[dependencies]
actix-cors = "0.7"
actix-files = "0.6"
actix-multipart = "0.7"
actix-web = { version = "4", default-features = false, features = ["macros"] }
anyhow = "1"
bytes = "1"
clamav-client = { version = "2", features = ["tokio"] }
env_logger = { version = "0.11", default-features = false }
futures-util = "0.3"
hex = "0.4"
hmac = "0.12"
image = { version = "0.25", default-features = false, features = ["png", "jpeg"] }
lazy_static = "1"
log = "0.4"
mongodb = { version = "3", default-features = false, features = ["compat-3-0-0", "rustls-tls"] }
once_cell = "1"
rand = "0.9"
reqwest = { version = "0.12", default-features = false, features = ["rustls-tls"] }
rust-s3 = { version = "0.37", default-features = false, features = ["tokio-rustls-tls"] }
scraper = "0.29"
serde = { version = "1", features = ["derive"] }
serde_json = "1"
sha2 = "0.10"
tokio = { version = "1", features = ["macros", "rt-multi-thread", "time"] }
ulid = "1"
url = "2"
