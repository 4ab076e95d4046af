[package]
name = "mcpr"
version = "0.2.3"
edition = "2021"
publish = false

[dependencies]
serde = { version = "1", features = ["derive"] }
serde_json = "1"
uuid = { version = "1", features = ["v4"] }
url = "2"
thiserror = "1"
tokio = { version = "1", features = ["full"] }
futures = "0.3"
async-trait = "0.1"
bytes = "1"
log = "0.4"
env_logger = "0.10"
clap = { version = "4", features = ["derive"] }
warp = { version = "0.3", default-features = false }
reqwest = { version = "0.11", default-features = false, features = ["stream"] }
eventsource-stream = "0.2"
tokio-tungstenite = "0.21"
