[package]
name = "fara_bridge"
version = "0.1.0"
edition = "2021"
publish = false

[dependencies]
anyhow = "=1.0.104"
base64 = "=0.23.1"
chrono = { version = "=0.4.45", features = ["serde"] }
dotenvy = "=0.15.7"
reqwest = { version = "=0.13.5", features = ["json", "form"] }
rumqttc = "=0.25.1"
serde = { version = "=1.0.229", features = ["derive"] }
serde_json = "=1.0.151"
tokio = { version = "=1.53.2", features = ["macros", "rt-multi-thread", "time"] }
