[package]
name = "nani_switch"
version = "0.1.0"
edition = "2021"
publish = false

[dependencies]
aes = "0.8"
anyhow = "1"
base64 = "0.22"
ctr = "0.9"
image = { version = "0.25", default-features = false, features = ["png"] }
indexmap = { version = "2", features = ["serde"] }
rand = "0.9"
reqwest = { version = "0.12", default-features = false, features = ["blocking", "json", "rustls-tls"] }
rusqlite = { version = "0.32", features = ["bundled"] }
serde = { version = "1", features = ["derive"] }
serde_json = "1"
sha2 = "0.10"
single-instance = "0.3"
tray-icon = "0.19"
windows-sys = { version = "0.59", features = ["Win32_Foundation", "Win32_UI_WindowsAndMessaging"] }
winreg = "0.52"
