[package]
name = "taptime"
version = "0.1.0"
edition = "2021"
publish = false

[dependencies]
argon2 = { version = "=0.5.3", features = ["std"] }
rand_core = { version = "=0.6.4", features = ["getrandom"] }
uuid = { version = "=1.29.0", features = ["v4"] }
chrono = "=0.4.45"
chrono-tz = "=0.10.4"
jsonwebtoken = "=9.3.1"
serde = { version = "=1.0.229", features = ["derive"] }
