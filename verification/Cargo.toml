[package]
name = "protun"
version = "0.1.0"
edition = "2021"
publish = false

[dependencies]
base64 = "=0.22.1"
ini = "=1.3.0"
libc = "=0.2.191"
log = "=0.4.35"
mio = { version = "=1.2.4", features = ["os-poll", "net", "os-ext"] }
serde = { version = "=1.0.229", features = ["derive"] }
serde_json = "=1.0.154"
socket2 = "=0.6.5"
