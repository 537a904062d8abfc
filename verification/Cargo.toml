[package]
name = "koala_clash"
version = "0.1.0"
edition = "2021"
publish = false

[dependencies]
anyhow = "1"
base64 = "0.22"
deelevate = "0.2"
futures = "0.3"
log = "0.4"
machine-uid = "0.5"
once_cell = "1"
os_info = "3"
parking_lot = "0.12"
percent-encoding = "2"
runas = "1"
scopeguard = "1"
serde = { version = "1", features = ["derive"] }
serde_json = "1"
serde_yaml = "0.9"
tokio = { version = "1", features = ["sync", "time", "fs", "rt"] }
url = "2"
users = "0.11"
