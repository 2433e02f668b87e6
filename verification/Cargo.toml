[package]
name = "refreshers"
version = "0.1.0"
edition = "2021"

[dependencies]
rand = "=0.8.8"
separator = "0.4"
zip = { version = "0.6", default-features = false, features = ["deflate"] }
