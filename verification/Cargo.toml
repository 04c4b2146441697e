[package]
name = "legba"
version = "0.1.0"
edition = "2021"
publish = false

[dependencies]
async-trait = "*"
tokio = { version = "*", features = ["net", "time"] }
vnc-rs = "*"
