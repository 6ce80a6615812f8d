[package]
name = "auction_server"
version = "0.1.0"
edition = "2021"
publish = false

[dependencies]
actix-cors = "=0.7.2"
actix-web = "=4.18.1"
aws-sdk-s3 = { version = "1", default-features = false, features = ["behavior-version-latest", "rt-tokio"] }
base64 = "=0.22.1"
bb8-redis = "=0.13.1"
bson = { version = "=2.15.0", features = ["chrono-0_4"] }
chrono = "=0.4.45"
config = { version = "0.11", default-features = false }
dotenv = "=0.15.0"
elasticsearch = "8.5.0-alpha.1"
env_logger = "=0.11.11"
futures = "=0.3.34"
log = "=0.4.34"
mongodb = "=2.8.2"
reqwest = { version = "=0.11.27", default-features = false, features = ["json"] }
serde = { version = "=1.0.229", features = ["derive"] }
serde_json = "=1.0.154"
tokio = { version = "=1.54.1", features = ["macros", "rt-multi-thread"] }
uuid = { version = "=1.29.0", features = ["v4"] }
