[package]
name = "voclip"
version = "0.1.0"
edition = "2021"
publish = false

[dependencies]
clap = { version = "=4.6.7", features = ["derive"] }
crossterm = "=0.28.1"
dirs-next = "=2.0.0"
dotenvy = "=0.15.7"
futures-util = "=0.3.34"
half = "=2.4.1"
libc = "=0.2.191"
reqwest = { version = "=0.12.28", default-features = false, features = ["json", "rustls-tls"] }
rustpotter = "=3.0.2"
serde = { version = "=1.0.229", features = ["derive"] }
serde_json = "=1.0.154"
thiserror = "1"
tokio = { version = "=1.54.1", features = ["full"] }
tokio-tungstenite = { version = "=0.24.0", features = ["rustls-tls-webpki-roots"] }
toml = "=0.8.23"
