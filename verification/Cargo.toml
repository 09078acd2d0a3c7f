[package]
name = "gotobed"
version = "0.1.0"
edition = "2021"
publish = false

[dependencies]
anyhow = "=1.0.104"
ascii = "=1.1.0"
chrono = { version = "=0.4.45", features = ["serde"] }
chrono-tz = { version = "=0.8.6", features = ["serde"] }
crossbeam-channel = "=0.5.17"
env_logger = "=0.10.2"
log = "=0.4.34"
plotly = "=0.8.4"
serde = { version = "=1.0.229", features = ["derive"] }
serde_json = "=1.0.154"
tiny_http = "=0.12.0"
ureq = { version = "=2.12.1", features = ["json"] }

[dev-dependencies]
regex = "=1.13.1"
