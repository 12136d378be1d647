[package]
name = "wallet_auth"
version = "0.1.0"
edition = "2021"
publish = false

[dependencies]
redis = "0.27"
sha2 = "0.10"
ed25519-dalek = "2"
rand = "0.8"
base64 = "0.22"
bs58 = "0.5"
jsonwebtoken = { version = "10", default-features = false, features = ["rust_crypto"] }
serde_json = { version = "1", features = ["preserve_order"] }
chrono = { version = "0.4", features = ["serde"] }
serde = { version = "1", features = ["derive"] }
thiserror = "2"
dotenv = "0.15"
actix-web = { version = "4", default-features = false, features = ["macros", "cookies"] }
actix-cors = "0.7"
actix-ws = "0.3"
awc = { version = "3", default-features = false, features = ["cookies"] }
futures-util = { version = "0.3", features = ["sink"] }
tokio-tungstenite = "0.26"
sqlx = { version = "0.8", default-features = false, features = ["runtime-tokio", "postgres", "chrono", "derive", "json"] }
