[package]
name = "installer"
version = "0.1.0"
edition = "2021"
publish = false

[dependencies]
ctrlc = "3"
dialoguer = "0.11"
serde = { version = "1", features = ["derive"] }
serde_json = "1"
