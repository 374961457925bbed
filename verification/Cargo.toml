[package]
name = "socios_peix"
version = "0.1.0"
edition = "2021"
publish = false

[dependencies]
argon2 = { version = "=0.5.3", features = ["std"] }
lettre = "=0.11.23"
chrono = "=0.4.45"
base64 = "=0.22.1"
rust_xlsxwriter = "=0.102.0"
sqlx = { version = "=0.8.6", default-features = false, features = ["sqlite", "runtime-tokio", "chrono", "macros", "migrate"] }
anyhow = "=1.0.104"
tokio = { version = "=1.54.1", features = ["rt-multi-thread", "macros"] }
