[package]
name = "apple_ai_bridge"
version = "0.1.0"
edition = "2021"
publish = false

[dependencies]
serde = { version = "1", features = ["derive"] }
serde_json = "1"
specta = "*"
tauri = { version = "2", default-features = false }
uuid = { version = "1", features = ["v4"] }
