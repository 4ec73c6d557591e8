[package]
name = "sendly"
version = "0.9.5"
edition = "2021"
publish = false

[dependencies]
hex = "0.4"
hmac = "0.12"
regex = "1"
sha2 = "0.10"
urlencoding = "2"
serde = { version = "1", features = ["derive"] }
serde_json = "1"
thiserror = "1"
reqwest = { version = "0.11", default-features = false, features = ["json"] }
tokio = { version = "1", features = ["time"] }
futures = "0.3"
async-stream = "0.3"
