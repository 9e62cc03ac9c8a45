[package]
name = "ci_kit"
version = "0.1.0"
edition = "2021"
publish = false

[dependencies]
reqwest = { version = "*", default-features = false, features = ["blocking"] }
tonic-prost-build = "*"
