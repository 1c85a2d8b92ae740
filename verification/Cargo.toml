[package]
name = "blitzdenk"
version = "0.1.0"
edition = "2021"
publish = false

[dependencies]
diffy = "*"
genai = "*"
tokio = { version = "*", features = ["full"] }
home = "*"
serde_json = "*"
reqwest = "*"
scraper = "*"
ignore = "*"
glob = "*"
