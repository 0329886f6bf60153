[package]
name = "tkm"
version = "0.1.0"
edition = "2021"
publish = false

[dependencies]
aes-gcm = "0.10"
argon2 = "0.5"
rand = "0.8"
zeroize = "1"
chrono = "0.4"
serde = { version = "1", features = ["derive"] }
serde_json = "1"
toml = "0.8"
anyhow = "1"
clap = { version = "4", features = ["derive"] }
secrecy = "0.10"
dirs = "5"
rpassword = "7"
arboard = { version = "3", default-features = false }
crossterm = "0.28"
ratatui = "0.29"
keyring = { version = "3", features = ["linux-native", "apple-native"] }
