[package]
name = "wit_owo"
version = "1.0.0"
edition = "2021"
publish = false

[dependencies]
serde_json = "*"
url = "*"
urlencoding = "*"
reqwest = { version = "*", default-features = false, features = ["json", "blocking", "stream"] }
serde = { version = "*", features = ["derive"] }
futures = "*"
async-stream = "*"
bytes = "*"
chrono = { version = "*", features = ["serde"] }
chrono-tz = { version = "*", features = ["serde"] }
thiserror = "*"
