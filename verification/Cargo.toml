[package]
name = "euphonica"
version = "0.1.0"
edition = "2021"
publish = false

[dependencies]
regex = "1"
base64 = "0.22"
urlencoding = "2.1"
fasthash = "0.4"
mpd = "*"
serde = { version = "1", features = ["derive"] }
bson = "2"
