[package]
name = "fixlang"
version = "0.1.0"
edition = "2021"
publish = false

[dependencies]
md5 = "0.7"
serde = { version = "1", features = ["derive"] }
serde_json = "1"
clap = "3.2"
build-time = "0.1"
