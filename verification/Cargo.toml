[package]
name = "gsmtui"
version = "0.1.0"
edition = "2021"
publish = false

[dependencies]
anyhow = "1"
arboard = "3"
base64 = "0.22"
chrono = "0.4"
crossterm = "0.28"
google-cloud-resourcemanager-v3 = "*"
google-cloud-secretmanager-v1 = "*"
ratatui = "0.29"
tokio = { version = "1", features = ["macros", "rt-multi-thread"] }
