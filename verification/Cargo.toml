[package]
name = "ratatoskr"
version = "0.1.0"
edition = "2021"
publish = false

[dependencies]
ropey = "*"
unicode-segmentation = "*"
rust_decimal = "*"
chrono = "*"
uuid = { version = "*", features = ["v4"] }
serde = { version = "*", features = ["derive"] }
serde_json = "*"
crossterm = "*"
ratatui = "*"
tokio = { version = "*", features = ["rt-multi-thread"] }
reqwest = { version = "*", default-features = false, features = ["json", "rustls-tls"] }
mysql = "*"
anyhow = "*"
once_cell = "*"
ctrlc = "*"
