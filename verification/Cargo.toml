[package]
name = "iterate"
version = "0.1.0"
edition = "2021"
publish = false

[dependencies]
aes-gcm = "*"
argon2 = "*"
hkdf = "*"
sha2 = "*"
rand = "*"
zeroize = "*"
rusqlite = { version = "*", features = ["bundled"] }
chrono = "*"
uuid = { version = "*", features = ["v7"] }
