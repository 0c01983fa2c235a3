[package]
name = "fsrs_nodejs"
version = "0.1.0"
edition = "2021"
publish = false

[dependencies]
fsrs = "=6.6.2"
napi = { version = "=2.16.17", default-features = false, features = ["napi4"] }
napi-derive = "=2.16.13"
