[package]
name = "ic_backup"
version = "0.1.0"
edition = "2021"
publish = false

[dependencies]
chrono = { version = "0.4", default-features = false, features = ["std", "clock"] }
rand = "0.8"
ic_principal = "0.1"
tempfile = "3"
slog = "2"
serde = { version = "1", features = ["derive"] }
