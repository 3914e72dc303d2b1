[package]
name = "bike_shopping_backend"
version = "0.1.0"
edition = "2021"
publish = false

[dependencies]
argon2 = "0.5"
jsonwebtoken = { version = "10", default-features = false, features = ["rust_crypto"] }
chrono = "0.4"
uuid = { version = "1", features = ["v4", "serde"] }
serde = { version = "1", features = ["derive"] }
serde_json = "1"
actix-web = "4"
actix-cors = "*"
actix-governor = "*"
mongodb = "3"
bson = { version = "2", features = ["uuid-1"] }
redis = { version = "*", features = ["tokio-comp", "connection-manager"] }
futures-util = "0.3"
dotenvy = "*"
env_logger = "*"
log = "0.4"
thiserror = "*"
validator = { version = "*", features = ["derive"] }
utoipa = { version = "5", features = ["actix_extras"] }
