[package]
name = "mqtty"
version = "0.1.0"
edition = "2021"
publish = false

[dependencies]
rusqlite = "*"
serde_json = "*"
sha2 = "*"
hex = "*"
directories = "*"
chrono = "*"
base64 = "*"
thiserror = "*"
indoc = "*"
