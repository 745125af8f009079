[package]
name = "gdax_feed"
version = "0.1.0"
edition = "2021"
publish = false

[dependencies]
regex = "1"
websocket = "0.17"
openssl = "0.7"
