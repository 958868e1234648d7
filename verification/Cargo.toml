[package]
name = "shield_sync"
version = "0.1.0"
edition = "2021"
publish = false

[dependencies]
argon2 = "0.5"
chacha20poly1305 = "0.10"
rand = "0.8"
tokio = { version = "1.41", features = ["full"] }
notify = "6.1"
notify-debouncer-full = "0.3"
rusqlite = { version = "0.32", features = ["bundled"] }
serde_json = "1.0"
clap = { version = "4.5", features = ["derive"] }
anyhow = "1.0"
thiserror = "1.0"
chrono = "0.4"
