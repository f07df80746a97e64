[package]
name = "sanshu"
version = "0.1.0"
edition = "2021"
publish = false

[dependencies]
anyhow = "*"
base64 = "*"
chrono = "*"
dirs = "*"
env_logger = "*"
fastrand = "*"
futures-util = "*"
hex = "*"
log = "*"
once_cell = "*"
reqwest = { version = "*", default-features = false, features = ["rustls-tls", "json", "stream", "socks"] }
ring = "*"
serde_json = "*"
sha2 = "*"
tokio = { version = "*", default-features = false, features = ["rt-multi-thread", "macros", "time"] }
uuid = { version = "*", features = ["v4"] }
