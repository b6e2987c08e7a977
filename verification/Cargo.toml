[package]
name = "upload_server"
version = "0.1.0"
edition = "2021"
publish = false

[dependencies]
chrono = "0.4"
form_urlencoded = "1"
url = "2"
tiny_http = "0.6"
multipart = { version = "0.18", default-features = false, features = ["server", "tiny_http"] }
rust-embed = "5"
