[package]
name = "whatsapp_rust"
version = "0.1.0"
edition = "2021"
publish = false

[dependencies]
anyhow = "1"
async-channel = "2"
async-lock = "3"
async-trait = "0.1"
base64 = "0.22"
bytes = "1"
chrono = "0.4"
event-listener = "5"
futures = "0.3"
hex = "0.4"
log = "0.4"
portable-atomic = "1"
prost = "*"
rand = "*"
scopeguard = "1"
serde_json = "1"
thiserror = "2"
wacore = { version = "=0.6.0", default-features = false }
wacore-binary = { version = "=0.6.0", default-features = false }
waproto = "=0.6.0"
