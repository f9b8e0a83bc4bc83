[package]
name = "poll_store"
version = "0.1.0"
edition = "2021"
publish = false

[dependencies]
candid = "=0.9.11"
ic-cdk = "=0.11.7"
ic-stable-structures = "=0.5.6"
serde = { version = "=1.0.219", features = ["derive"] }
