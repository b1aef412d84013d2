[package]
name = "dchess"
version = "0.1.0"
edition = "2021"
publish = false

[dependencies]
chess = "=3.2.0"
hdk = "0.7"
serde = { version = "1", features = ["derive"] }
serde_json = "1"
