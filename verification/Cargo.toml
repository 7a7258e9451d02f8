[package]
name = "pikman_update_manager"
version = "0.1.0"
edition = "2021"
publish = false

[dependencies]
strfmt = "0.2"
configparser = "3"
regex = "1"
serde = { version = "1", features = ["derive"] }
serde_json = "1"
pretty-bytes = "0.2"
chrono = "0.4"
duct = "0.13"
os_pipe = "1"
async-channel = "2"
tokio = { version = "1", features = ["rt", "rt-multi-thread", "net", "io-util", "macros"] }
rust-apt = "0.7"
