[package]
name = "noita_save_manager"
version = "0.1.0"
edition = "2021"
publish = false

[dependencies]
chrono = "0.4"
colored = "*"
directories = "*"
fs2 = "0.4"
regex = "1"
rust-i18n = "*"
rustyline = "*"
serde = { version = "1", features = ["derive"] }
serde_json = "1"
sys-locale = "*"
unicode-width = "*"
