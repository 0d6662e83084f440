[package]
name = "farming_sacco_backend"
version = "0.1.0"
edition = "2021"
publish = false

[dependencies]
candid = "0.10"
ic-cdk = "*"
ic-stable-structures = "*"
regex = "1"
serde = { version = "1", features = ["derive"] }
