[package]
name = "memtoy"
version = "0.1.0"
edition = "2021"
publish = false

[dependencies]
chrono = "0.4"
regex = "1"
url = "2"
rusqlite = { version = "*", features = ["bundled"] }
directories = "*"
webbrowser = "*"
