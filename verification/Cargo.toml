[package]
name = "file_server"
version = "0.1.0"
edition = "2021"
publish = false

[dependencies]
tiny_http = "*"
tokio = { version = "*", features = ["rt", "sync"] }
