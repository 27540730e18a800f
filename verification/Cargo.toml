[package]
name = "loxerpaper"
version = "0.1.0"
edition = "2021"
publish = false

[dependencies]
dialoguer = "*"
dirs-next = "*"
notify-rust = "*"
reqwest = { version = "*", default-features = false, features = ["json", "rustls-tls"] }
serde = { version = "*", features = ["derive"] }
tempfile = "*"
tokio = { version = "*", features = ["rt-multi-thread", "macros", "time"] }
toml = "*"
url = "*"
