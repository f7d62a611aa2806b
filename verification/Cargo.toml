[package]
name = "story_launcher"
version = "0.1.0"
edition = "2021"
publish = false

[dependencies]
dirs = "6"
flate2 = "1"
reqwest = { version = "0.12", features = ["blocking", "json"] }
serde = { version = "1", features = ["derive"] }
serde_json = "1"
tar = "0.4"
zip = { version = "*", default-features = false, features = ["deflate"] }
