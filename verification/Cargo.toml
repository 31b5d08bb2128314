[package]
name = "circle_chat"
version = "0.1.0"
edition = "2021"
publish = false

[dependencies]
rsa = "=0.9.10"
sha2 = { version = "=0.10.9", features = ["oid"] }
rand = "=0.8.8"
hex = "=0.4.3"
serde = { version = "=1.0.229", features = ["derive"] }
thiserror = "=1.0.69"
tokio = { version = "=1.53.2", features = ["full"] }
mongodb = "=2.8.2"
actix-web = "=4.15.0"
futures-util = "=0.3.34"
