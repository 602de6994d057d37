[package]
name = "share-mouse"
version = "0.1.0"
edition = "2021"
publish = false

[dependencies]
anyhow = "=1.0.104"
bincode = "=1.3.3"
bitflags = { version = "=2.13.2", features = ["serde"] }
core-foundation = "0.10"
core-graphics = "0.24"
log = "0.4"
serde = { version = "1", features = ["derive"] }
tauri = { version = "2", default-features = false }
tauri-plugin-log = "2"
tokio = { version = "1", features = ["full"] }
uuid = { version = "=1.29.0", features = ["v4"] }
windows = { version = "=0.62.2", features = ["Win32_Foundation", "Win32_UI_Input_KeyboardAndMouse", "Win32_UI_WindowsAndMessaging"] }
