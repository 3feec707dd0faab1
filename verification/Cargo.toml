[package]
name = "warp10"
version = "0.1.0"
edition = "2021"
publish = false

[dependencies]
http = "0.2"
isahc = "1"
percent-encoding = "2"
time = "0.3"
url = "2"
