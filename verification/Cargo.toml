[package]
name = "chessbot"
version = "0.1.0"
edition = "2021"
rust-version = "1.95"
publish = false

[dependencies]
shakmaty = "=0.29.4"
rand = "*"
ring = "*"
base64 = "*"
tokio = { version = "*", features = ["full"] }
mongodb = "*"
pgn-reader = "=0.28.0"
serde = { version = "*", features = ["derive"] }
serde_json = "*"
dotenv = "*"
thiserror = "*"
futures = "*"
