[package]
name = "tambourine"
version = "0.1.0"
edition = "2021"
publish = false

[dependencies]
anyhow = "=1.0.104"
arboard = "3"
chrono = { version = "=0.4.45", features = ["serde"] }
core-foundation = "0.10"
core-graphics = "0.25"
enigo = "0.6"
log = "=0.4.34"
objc2 = "0.6"
objc2-app-kit = "0.3"
objc2-core-audio = "0.3"
objc2-foundation = "0.3"
rodio = "0.21"
serde = { version = "=1.0.229", features = ["derive"] }
serde_json = "=1.0.154"
tempfile = "=3.27.0"
tokio = { version = "1", features = ["sync"] }
uuid = { version = "=1.29.0", features = ["v4"] }
windows = "0.61"
