[package]
name = "secm-app"
version = "0.1.0"
edition = "2021"
publish = false

[dependencies]
image = { version = "=0.25.10", default-features = false, features = ["png"] }
serde_json = "=1.0.154"
anyhow = "=1.0.104"
log = "=0.4.35"
raw-window-handle = "=0.6.2"
windows-sys = { version = "=0.61.2", features = ["Win32_Foundation", "Win32_UI_WindowsAndMessaging", "Win32_System_Threading", "Win32_System_LibraryLoader", "Win32_Graphics_Dwm"] }
