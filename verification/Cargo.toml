[package]
name = "phirepass"
version = "0.1.0"
edition = "2021"
publish = false

[dependencies]
uuid = { version = "=1.29.0", features = ["v4", "serde"] }
ulid = { version = "=1.2.1", features = ["serde"] }
dashmap = "=6.2.1"
serde = { version = "=1.0.229", features = ["derive"] }
serde_json = "=1.0.154"
rmp-serde = "=1.3.1"
anyhow = "=1.0.104"
log = "=0.4.35"
thiserror = "=2.0.21"
bytes = "=1.12.1"
tokio = { version = "=1.54.1", features = ["sync", "rt", "macros", "time"] }
tempfile = "3"
directories = "5"
env_logger = { version = "0.11", default-features = false }
clap = { version = "4", features = ["derive"] }
envconfig = "0.10"
