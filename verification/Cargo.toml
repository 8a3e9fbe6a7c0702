[package]
name = "git_backup"
version = "0.1.0"
edition = "2021"
publish = false

[dependencies]
serde_json = "1"
base64 = "0.13"
reqwest = { version = "0.11", default-features = false, features = ["blocking"] }
structopt = "0.3"
rayon = "1"
colored = "2"
