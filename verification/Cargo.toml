[package]
name = "awsaml"
version = "0.1.0"
edition = "2021"
publish = false

[dependencies]
anyhow = "=1.0.104"
base64 = "=0.23.1"
chrono = "=0.4.45"
clap = { version = "=4.6.7", features = ["derive"] }
dirs = "=7.0.0"
flate2 = "=1.1.10"
headless_chrome = { version = "=1.0.22", features = ["offline"] }
log = "=0.4.34"
rust-ini = "=0.21.3"
url = "=2.5.8"
urlencoding = "=2.1.3"
uuid = { version = "=1.27.0", features = ["v4"] }
