[package]
name = "rust_hft_client"
version = "0.1.0"
edition = "2021"
publish = false

[dependencies]
hdrhistogram = "7.5"
uuid = { version = "1", features = ["v4"] }
serde = { version = "1", features = ["derive"] }
serde_json = "1"
thiserror = "1"
log = "0.4"
env_logger = "0.11"
tokio = { version = "1", features = ["rt-multi-thread", "macros", "net"] }
tokio-tungstenite = { version = "0.21", features = ["native-tls"] }
futures-util = "0.3"
native-tls = "0.2"
actix = "0.13"
actix-web = { version = "4", features = ["rustls-0_23"] }
actix-web-actors = "4"
rustls = { version = "0.23", default-features = false, features = ["std", "ring"] }
rustls-pemfile = "2"
rand = "0.8"
config = { version = "0.14", default-features = false, features = ["toml"] }
