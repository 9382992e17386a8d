[package]
name = "vrs_sqlite"
version = "0.1.0"
edition = "2021"
publish = false

[dependencies]
log = "=0.4.34"
sqlx = { version = "=0.8.6", default-features = false, features = ["runtime-tokio", "sqlite", "migrate"] }

[dev-dependencies]
tempfile = "3"
tokio = { version = "=1.54.1", features = ["rt", "fs"] }
