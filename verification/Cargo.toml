[package]
name = "telegram_bot"
version = "0.1.0"
edition = "2021"
publish = false

[dependencies]
hyper = "0.10"
hyper-rustls = "0.6"
log = "0.3"
rustc-serialize = "0.3"
url = "1"
