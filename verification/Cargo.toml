[package]
name = "cookie_fetch"
version = "0.1.0"
edition = "2021"
publish = false

[dependencies]
reqwest = { version = "*", default-features = false }
reqwest_cookie_store = "*"
serde = { version = "*", features = ["derive"] }
tokio = { version = "*", default-features = false, features = ["sync"] }
