[package]
name = "srotas-desk"
version = "0.1.0"
edition = "2021"
publish = false

[dependencies]
argon2 = { version = "=0.5.3", features = ["std"] }
base64 = "=0.22.1"
chrono = { version = "=0.4.45", default-features = false, features = ["clock", "std"] }
ed25519-dalek = "=2.2.0"
sqlx = { version = "=0.8.6", default-features = false, features = ["sqlite", "runtime-tokio", "chrono"] }
tokio = { version = "=1.54.1", features = ["rt", "macros"] }
thiserror = "=2.0.21"
uuid = { version = "=1.29.0", features = ["v4"] }
dirs = "=6.0.0"
