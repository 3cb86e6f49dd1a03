[package]
name = "ssml"
version = "0.2.0"
edition = "2021"
publish = false

[dependencies]
anyhow = "1"
dyn-clone = "1"
serde = { version = "1", features = ["derive"] }
