[package]
name = "qobuz-lib"
version = "0.1.0"
edition = "2021"
publish = false

[dependencies]
base64 = "0.22"
md5 = "0.7"
regex = "1"
rand = "0.9"
serde = { version = "1", features = ["derive"] }
serde_json = "1"
toml = "0.8"
dirs = "6"
reqwest = { version = "0.12", default-features = false, features = ["rustls-tls", "json"] }
tokio = { version = "1", features = ["rt-multi-thread", "macros", "sync", "time"] }
rodio = "0.20"
crossterm = "0.28"
ratatui = "0.29"
landlock = "0.4"
nix = { version = "0.30", features = ["fs"] }
