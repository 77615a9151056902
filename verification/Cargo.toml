[package]
name = "kovi-plugin-irc-gateway"
version = "0.1.0"
edition = "2021"
publish = false

[dependencies]
kovi = "=0.12.7"
futures = "=0.3.34"
tokio-util = { version = "=0.7.20", features = ["codec"] }
irc-proto = "=1.1.0"
image = "=0.24.9"
rascii_art = "=0.4.5"
serde = { version = "=1.0.229", features = ["derive"] }
thiserror = "=2.0.21"
