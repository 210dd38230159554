[package]
name = "logto_core"
version = "0.1.0"
edition = "2021"
publish = false

[dependencies]
base64 = "*"
sha2 = "*"
rand = "*"
serde = { version = "*", features = ["derive"] }
serde_json = "*"
reqwest = { version = "*", default-features = false, features = ["json"] }
