[package]
name = "bevy_rpg"
version = "0.1.0"
edition = "2021"
publish = false

[dependencies]
bincode-next = { version = "*", features = ["serde"] }
serde = { version = "1", features = ["derive"] }
chrono = "0.4"
rand = "*"
petname = "*"
log = "0.4"
bevy = { version = "0.19", default-features = false }
