[package]
name = "naphwiki_timeline"
version = "0.2.2"
edition = "2021"
publish = false

[dependencies]
serde = { version = "1", features = ["derive"] }
serde_json = "1"
winreg = "*"
