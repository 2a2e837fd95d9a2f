[package]
name = "avfallsor"
version = "0.1.0"
edition = "2021"
publish = false

[dependencies]
chrono = "=0.4.45"
serde = { version = "=1.0.229", features = ["derive"] }
serde_json = { version = "=1.0.151", features = ["preserve_order"] }
reqwest = { version = "=0.13.5", default-features = false, features = ["blocking", "json", "query"] }
rumqttc = "=0.25.1"
dotenvy = "=0.15.7"
anyhow = "=1.0.104"
