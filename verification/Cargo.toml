[package]
name = "pet-desktop"
version = "0.1.0"
edition = "2021"
publish = false

[dependencies]
chrono = "=0.4.45"
serde = { version = "=1.0.229", features = ["derive"] }
rusqlite = { version = "=0.31.0", features = ["bundled"] }
log = "=0.4.35"
env_logger = "=0.11.11"
rodio = "=0.17.3"
raw-window-handle = "=0.6.2"
tts = "0.25"
