[package]
name = "croque"
version = "0.1.0"
edition = "2021"
publish = false

[dependencies]
base64 = "*"
unicode-width = "*"
clap = { version = "*", features = ["derive"] }
serde = { version = "*", features = ["derive"] }
serde_yaml = "*"
serde_json = "*"
dirs = "*"
chrono = "*"
git2 = { version = "*", default-features = false }
users = "*"
hostname = "*"
