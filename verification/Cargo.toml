[package]
name = "squared_api_wrapper"
version = "0.1.0"
edition = "2021"
publish = false

[dependencies]
curl = "0.4"
mime_guess = "2"
http_codex = "*"
anyhow = "1"
