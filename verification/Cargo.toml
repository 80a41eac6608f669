[package]
name = "asr_client"
version = "0.1.0"
edition = "2021"
publish = false

[dependencies]
base64 = "0.22"
serde = { version = "1", features = ["derive"] }
serde_json = "1"
reqwest = { version = "0.12", default-features = false, features = ["json"] }
chrono = "0.4"
log = "0.4"
tauri = { version = "2", default-features = false }
tauri-plugin-global-shortcut = "2"
windows = { version = "*", features = ["Win32_Foundation", "Win32_UI_WindowsAndMessaging", "Win32_System_Threading"] }
