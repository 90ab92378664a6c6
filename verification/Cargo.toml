[package]
name = "keystroke_counter"
version = "0.1.0"
edition = "2021"
publish = false

[dependencies]
chrono = "0.4"
serde = { version = "1", features = ["derive"] }
rusqlite = { version = "*", features = ["bundled"] }
log = "0.4"
env_logger = "*"
rdev = "0.5"
core-foundation = "*"
