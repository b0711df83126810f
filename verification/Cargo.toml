[package]
name = "projman"
version = "0.1.0"
edition = "2021"
publish = false

[dependencies]
askalono = "=0.5.0"
serde = { version = "=1.0.229", features = ["derive"] }
serde_json = "=1.0.154"
serde_yaml = "=0.9.34"
toml = "=1.2.1"
directories = "=6.0.0"
git2 = { version = "=0.21.0", features = ["cred"] }
open = "=5.4.5"
