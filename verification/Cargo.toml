[package]
name = "birdoftheday"
version = "0.1.0"
edition = "2021"
publish = false

[dependencies]
serde_json = "1"
scraper = "*"
rand = "0.8"
time = { version = "0.3", features = ["formatting"] }
minreq = "2"
