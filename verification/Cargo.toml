[package]
name = "session_store"
version = "0.1.0"
edition = "2021"
publish = false

[dependencies]
git2 = "*"
serde = { version = "*", features = ["derive"] }
dirs = "*"
