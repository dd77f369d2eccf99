[package]
name = "amp_client"
version = "0.1.0"
edition = "2021"
publish = false

[dependencies]
reqwest = { version = "=0.12.28", features = ["json"] }
reqwest-eventsource = "=0.6.0"
serde = { version = "=1.0.229", features = ["derive"] }
serde_json = "=1.0.151"
url = "2"
