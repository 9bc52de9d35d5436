[package]
name = "love_project"
version = "0.1.0"
edition = "2021"
publish = false

[dependencies]
failure = "=0.1.8"
regex = "=1.13.1"
version-lp = "=0.2.1"
zip = { version = "2", default-features = false, features = ["deflate"] }
