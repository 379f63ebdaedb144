[package]
name = "cycle-certs"
version = "0.1.0"
edition = "2021"
publish = false

[dependencies]
anyhow = "1"
chrono = "0.4"
clap = { version = "4", features = ["derive"] }
config = { version = "0.13", default-features = false, features = ["toml", "json", "yaml", "ini"] }
env_logger = "0.10"
log = "0.4"
reqwest = { version = "0.11", default-features = false, features = ["blocking", "json", "rustls-tls"] }
serde = { version = "1", features = ["derive"] }
serde_json = "1"
shell-words = "1"
termcolor = "1"
