[package]
name = "keyval_store"
version = "0.1.0"
edition = "2021"
publish = false

[dependencies]
rusqlite = { version = "*", features = ["bundled"] }
chrono = "*"
rand = "*"
actix-web = "*"
actix-files = "*"
futures = "*"
serde = { version = "*", features = ["derive"] }
procfs = "*"
sysinfo = "*"
