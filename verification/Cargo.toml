[package]
name = "mhf_launcher"
version = "0.1.0"
edition = "2021"
publish = false

[dependencies]
serde = { version = "=1.0.229", features = ["derive"] }
serde_json = "=1.0.151"
ureq = { version = "=2.12.1", features = ["json"] }
