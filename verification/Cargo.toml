[package]
name = "rustspy"
version = "0.1.0"
edition = "2021"
publish = false

[dependencies]
anyhow = "1"
env_logger = { version = "0.11", default-features = false }
log = "0.4"
iced = { version = "0.12", default-features = false }
rfd = { version = "0.14", default-features = false, features = ["xdg-portal", "tokio"] }
