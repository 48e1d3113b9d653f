[package]
name = "artlink"
version = "0.1.0"
edition = "2021"
publish = false

[dependencies]
http = "*"
form_urlencoded = "*"
serde_json = "*"
fastrand = "*"
dashmap = "*"
axum = "*"
maud = "*"
reqwest = { version = "*", default-features = false }
tokio = { version = "*", features = ["macros", "rt-multi-thread", "net"] }
signal-hook = "*"
