[package]
name = "rumatui"
version = "0.1.0"
edition = "2021"
publish = false

[dependencies]
anyhow = "=1.0.104"
matrix-sdk = { version = "=0.1.0", default-features = false }
termion = "=4.0.6"
tokio = { version = "=0.2.25", features = ["rt-core", "rt-threaded", "sync"] }
tui = { version = "=0.19.0", default-features = false }
url = "=2.5.8"
