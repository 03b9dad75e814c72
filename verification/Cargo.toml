[package]
name = "kcal"
version = "0.1.0"
edition = "2021"
publish = false

[dependencies]
oauth2 = "4"
url = "2"
serde_json = "1"
serde = { version = "1", features = ["derive"] }
rand = "0.8"
