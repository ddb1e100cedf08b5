[package]
name = "nautilus_tastytrade"
version = "0.1.0"
edition = "2021"
publish = false

[dependencies]
serde = { version = "=1.0.229", features = ["derive"] }
serde_json = "=1.0.154"
zeroize = "=1.9.1"
thiserror = "=2.0.21"
bon = "=3.10.3"
log = "=0.4.35"
tokio = { version = "=1.54.1", features = ["sync", "time"] }
tokio-util = "=0.7.20"
ustr = "=1.1.0"
