[package]
name = "mgit_track"
version = "0.1.0"
edition = "2021"
publish = false

[dependencies]
git2 = { version = "*", default-features = false }
owo-colors = "*"
serde = { version = "*", features = ["derive"] }
toml = "*"
