[package]
name = "cellardoor"
version = "0.1.0"
edition = "2021"
publish = false

[dependencies]
sha1 = "0.6"
base64 = "0.13"
mime_guess = "2"
chrono = "0.4"
log = "0.4"
env_logger = "*"
serde_json = "1"
redis = "*"
ical = "*"
curl = { version = "0.4", default-features = false }
websocket = { version = "*", default-features = false, features = ["sync"] }
