[package]
name = "ruggine"
version = "0.1.0"
edition = "2021"
publish = false

[dependencies]
bcrypt = "=0.19.3"
chrono = { version = "=0.4.45", features = ["serde"] }
libc = "=0.2.191"
rusqlite = "=0.41.0"
serde = { version = "=1.0.229", features = ["derive"] }
serde_json = "=1.0.154"
uuid = { version = "=1.29.0", features = ["v4"] }
