[package]
name = "mxbattery"
version = "0.1.0"
edition = "2021"
publish = false

[dependencies]
anyhow = "=1.0.104"
arc-swap = "=1.9.3"
block2 = "=0.5.1"
chrono = { version = "=0.4.45", features = ["serde"] }
clap = { version = "=4.6.7", features = ["derive"] }
dirs = "=5.0.1"
humantime-serde = "=1.1.1"
libc = "=0.2.191"
notify = "=6.1.1"
objc2 = "=0.5.3"
objc2-app-kit = { version = "=0.2.2", features = ["all"] }
objc2-core-bluetooth = { version = "=0.2.2", features = ["all"] }
objc2-foundation = { version = "=0.2.2", features = ["all"] }
objc2-user-notifications = { version = "=0.2.2", features = ["all"] }
serde = { version = "=1.0.229", features = ["derive"] }
serde_json = "=1.0.154"
tempfile = "=3.27.0"
thiserror = "=1.0.69"
tokio = { version = "=1.54.1", features = ["full"] }
toml = "=0.8.23"
tracing = "=0.1.44"
tracing-subscriber = { version = "=0.3.23", features = ["env-filter", "chrono"] }

[dev-dependencies]
hex = "=0.4.3"
