[package]
name = "rustion"
version = "0.1.0"
edition = "2021"
publish = false

[dependencies]
aes-gcm = "=0.10.3"
argon2 = "=0.5.3"
base64 = "=0.22.1"
chrono = "=0.4.45"
clap = { version = "=4.6.7", features = ["derive"] }
env_logger = "0.11"
humantime = "=2.4.0"
humantime-serde = "=1.1.1"
inquire = "=0.9.4"
ipnetwork = "=0.21.1"
log = "=0.4.35"
petgraph = "=0.8.3"
rand = "=0.9.5"
regex = "=1.13.1"
russh = "=0.65.0"
serde = { version = "=1.0.229", features = ["derive"] }
serde_json = "=1.0.154"
toml = "=1.1.8"
unicode-width = "=0.2.3"
uuid = { version = "=1.29.0", features = ["v4"] }
