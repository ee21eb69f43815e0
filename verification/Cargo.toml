[package]
name = "buildtime_secrets_nix"
version = "0.1.0"
edition = "2021"
publish = false

[dependencies]
cxx = "*"
serde = { version = "*", features = ["derive"] }
serde_json = "*"
thiserror = "*"
tracing = "*"
tracing-subscriber = { version = "*", features = ["env-filter"] }
