[package]
name = "jobfleet"
version = "0.1.0"
edition = "2021"
publish = false

[dependencies]
regex = "=1.13.1"
serde_json = { version = "=1.0.154", features = ["preserve_order"] }
uuid = { version = "=1.29.0", features = ["v4", "serde"] }
serde = { version = "=1.0.229", features = ["derive"] }
log = "=0.4.34"
env_logger = "=0.10.2"
lazy_static = "=1.5.1"
redis = "=0.23.5"
iron = "=0.6.1"
router = "=0.6.0"
bodyparser = "=0.8.0"
persistent = "=0.4.0"
