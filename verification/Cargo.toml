[package]
name = "industruino"
version = "0.1.0"
edition = "2021"
publish = false

[dependencies]
clap = { version = "2", features = ["yaml"] }
crossbeam-channel = "0.3"
rumqtt = "0.31"
serde = { version = "1", features = ["derive"] }
serde_json = "1"
