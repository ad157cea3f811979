[package]
name = "plain_rss"
version = "0.1.0"
edition = "2021"
publish = false

[dependencies]
feed-rs = "1.0.0"
html2text = "0.2.1"
opml = "1.1.2"
reqwest = { version = "0.11", default-features = false, features = ["blocking"] }
sqlite = "0.26.0"
