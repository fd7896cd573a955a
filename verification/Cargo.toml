[package]
name = "bsky_vita"
version = "0.1.0"
edition = "2021"
publish = false

[dependencies]
atrium-api = { version = "0.25", default-features = false, features = ["agent", "bluesky"] }
atrium-xrpc = "0.12"
crossbeam-channel = "0.5"
futures = "0.3"
serde_json = "1"
