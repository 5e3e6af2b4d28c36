[package]
name = "recloak"
version = "0.1.0"
edition = "2021"
publish = false

[dependencies]
jsonwebtoken = "9"
serde_json = "1"
serde = { version = "1", features = ["derive"] }
uuid = "1"
url = "2"
chrono = "0.4"
reqwest = { version = "0.12", default-features = false, features = ["json"] }
tokio = { version = "1", features = ["sync", "rt"] }
tower = "0.5"
http = "1"
tonic = { version = "0.12", default-features = false }
