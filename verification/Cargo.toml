[package]
name = "btc_handshake"
version = "0.1.0"
edition = "2021"
publish = false

[dependencies]
bitcoin_hashes = "*"
tokio = { version = "*", default-features = false, features = ["net", "io-util", "rt-multi-thread", "macros"] }
