[package]
name = "expr"
version = "0.1.0"
edition = "2021"
publish = false

[dependencies]
chrono = { version = "0.4", default-features = false, features = ["std"] }
csv = "1"
dec = "0.4"
encoding = "0.2"
hmac = "0.11"
md-5 = "0.9"
num = "0.4"
ordered-float = "2"
regex = "1"
serde = { version = "1", features = ["derive"] }
serde_json = "1"
sha-1 = "0.9"
sha2 = "0.9"
uuid = "0.8"
