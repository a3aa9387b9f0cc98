[package]
name = "myrmex"
version = "0.0.66"
edition = "2021"
publish = false

[dependencies]
chrono = "0.4"
serde = { version = "1", features = ["derive"] }
serde_json = "1"
bevy = { version = "0.14", default-features = false }
bevy_egui = { version = "0.30", default-features = false }
