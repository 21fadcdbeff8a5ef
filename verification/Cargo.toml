[package]
name = "heartbeat"
version = "0.1.0"
edition = "2021"
publish = false

[dependencies]
failure = "0.1"
reqwest = { version = "0.11", default-features = false, features = ["blocking"] }
termion = "1.5"
tui = { version = "0.19", default-features = false, features = ["termion"] }
