[package]
name = "aether-proxy"
version = "0.2.0"
edition = "2021"
publish = false

[dependencies]
bytes = "=1.12.1"
flate2 = "=1.1.10"
url = "=2.5.8"
anyhow = "=1.0.104"
arc-swap = "=1.9.3"
clap = { version = "=4.6.7", features = ["derive", "env"] }
crossterm = "=0.28.1"
futures-util = "=0.3.34"
hex = "=0.4.3"
libc = "=0.2.191"
ratatui = "=0.29.0"
reqwest = { version = "=0.12.28", default-features = false, features = ["rustls-tls", "stream", "json", "http2"] }
rustls = { version = "=0.23.46", default-features = false, features = ["ring", "std", "tls12", "logging"] }
serde = { version = "=1.0.229", features = ["derive"] }
serde_json = "=1.0.154"
sha2 = "=0.10.9"
socket2 = { version = "=0.5.10", features = ["all"] }
tar = "=0.4.46"
tokio = { version = "=1.54.1", features = ["full"] }
tokio-tungstenite = { version = "=0.24.0", features = ["rustls-tls-webpki-roots"] }
toml = "=0.8.23"
tracing = "=0.1.44"
tracing-subscriber = { version = "=0.3.23", features = ["env-filter", "json"] }
webpki-roots = "=0.26.11"
