[package]
name = "vsix_installer"
version = "0.1.0"
edition = "2021"
publish = false

[dependencies]
zip = { version = "*", default-features = false, features = ["deflate"] }
serde_json = "*"
serde = { version = "*", features = ["derive"] }
