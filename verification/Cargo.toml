[package]
name = "authflow"
version = "0.1.0"
edition = "2021"
publish = false

[dependencies]
argon2 = "=0.5.3"
jsonwebtoken = "=9.3.1"
uuid = { version = "=1.27.0", features = ["v4"] }
serde_json = "=1.0.151"
password-hash = { version = "=0.5.0", features = ["getrandom"] }
