[package]
name = "dadm_agent"
version = "0.1.0"
edition = "2021"
publish = false

[dependencies]
aes-gcm = "=0.10.3"
base64 = "=0.22.1"
chrono = { version = "=0.4.45", features = ["serde"] }
ctrlc = "=3.5.2"
dirs = "=5.0.1"
rand = "=0.8.8"
reqwest = { version = "=0.12.28", default-features = false, features = ["blocking", "json"] }
ring = "=0.17.14"
rusqlite = { version = "=0.31.0", features = ["bundled"] }
serde = { version = "=1.0.229", features = ["derive"] }
serde_json = "=1.0.151"
sha2 = "=0.10.9"
sysinfo = "=0.29.11"
tracing = "=0.1.44"
tracing-subscriber = { version = "=0.3.23", features = ["env-filter", "json"] }
uuid = { version = "=1.27.0", features = ["v4"] }
walkdir = "=2.5.0"

[dev-dependencies]
tempfile = "=3.27.0"
