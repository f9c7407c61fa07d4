[package]
name = "saved_accounts"
version = "0.1.0"
edition = "2021"
publish = false

[dependencies]
chrono = { version = "=0.4.45", features = ["serde"] }
ratatui = { version = "=0.29.0", default-features = false }
reqwest = { version = "=0.12.28", default-features = false, features = ["json"] }
serde = { version = "=1.0.229", features = ["derive"] }
serde_json = "=1.0.154"
sha2 = "=0.10.9"
textwrap = "=0.16.4"
tokio = { version = "=1.54.1", features = ["rt", "time"] }
